//! Typed client logic for a card-game data web service: query-filter
//! builders, request addresses, paging cursors, response decoding and
//! response metadata. Sending the requests is left to the caller; what is
//! here computes what to ask for and reads what came back.

pub mod api;
pub mod prelude;
pub mod text;
