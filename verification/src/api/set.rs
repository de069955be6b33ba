//! The set collection: filters and requests.

pub mod filter;
pub mod filtertypes;
pub mod set_api;
