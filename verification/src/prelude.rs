//! The names that building a filter takes, in one place.

pub use crate::api::card::filter::{CardFilter, CardFilterBuilder};
pub use crate::api::card::filtertypes::{
    CardColor, CardColorIdentity, CardLanguage, CardLayout, CardLegality, CardRarity,
    CardResponseField, CardSuperType, CardType, GameFormat,
};
pub use crate::api::set::filter::{SetFilter, SetFilterBuilder};
pub use crate::api::set::filtertypes::SetBlock;
