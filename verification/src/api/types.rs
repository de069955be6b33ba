//! The names of types, subtypes and supertypes.

pub mod type_api;
