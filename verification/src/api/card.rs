//! The card collection: filters and requests.

pub mod card_api;
pub mod filter;
pub mod filtertypes;
