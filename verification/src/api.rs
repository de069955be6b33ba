//! Requests to the service's endpoints and the decoding of its answers.

pub mod card;
pub mod envelope;
pub mod error;
pub mod format;
pub mod json;
pub mod query;
pub mod response;
pub mod set;
pub mod transport;
pub mod types;
pub mod util;
