//! The names of the game formats.

pub mod format_api;
