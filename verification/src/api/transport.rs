//! The seam between this library and whatever sends the requests.
//!
//! The library builds the address of a request and reads what came back.
//! The sending lies between the two and is the caller's.

use crate::api::error::{outcome, ErrorView, MtgApiErrorKind};
use crate::api::json::JsonValue;
use crate::api::response::{with_counters, ApiResponse, ResponseView};
use crate::api::util::{entity_outcome, list_outcome, names_outcome};
use reqwest::header::HeaderMap;
use vstd::prelude::*;

verus! {

/// What came of sending one request.
#[derive(Debug)]
pub enum Fetched {
    /// The client that should have sent it is gone.
    ClientDropped,
    /// It could not be sent, or no answer came.
    HttpError,
    /// An answer came, but its body could not be read.
    BodyReadError,
    /// The answer.
    Answer { headers: HeaderMap, body: String },
}

/// The error that a request ends with when no answer came.
pub open spec fn transport_failure(fetched: Fetched) -> Option<ErrorView> {
    match fetched {
        Fetched::ClientDropped => Some(ErrorView::ClientDropped),
        Fetched::HttpError => Some(ErrorView::HttpError),
        Fetched::BodyReadError => Some(ErrorView::BodyReadError),
        Fetched::Answer { .. } => None,
    }
}

/// The content with the counters of the headers it came with, or the error
/// that the content already is. The headers never turn content into an
/// error.
pub open spec fn answered<T>(content: Result<T, ErrorView>, headers: HeaderMap) -> Result<
    ResponseView<T>,
    ErrorView,
> {
    match content {
        Ok(content) => Ok(with_counters(content, headers)),
        Err(kind) => Err(kind),
    }
}

/// A result with its response and its error seen through their views.
pub open spec fn response_outcome<T>(res: Result<ApiResponse<T>, MtgApiErrorKind>) -> Result<
    ResponseView<T>,
    ErrorView,
> {
    match res {
        Ok(response) => Ok(response@),
        Err(kind) => Err(kind@),
    }
}

/// What the caller of a collection endpoint gets for `fetched`.
pub open spec fn list_answer(fetched: Fetched, key: Seq<char>, malformed: ErrorView) -> Result<
    ResponseView<Vec<JsonValue>>,
    ErrorView,
> {
    match fetched {
        Fetched::Answer { headers, body } => answered(list_outcome(body@, key, malformed), headers),
        _ => Err(transport_failure(fetched)->0),
    }
}

/// What the caller of an item endpoint gets for `fetched`.
pub open spec fn entity_answer(
    fetched: Fetched,
    key: Seq<char>,
    malformed: ErrorView,
    not_found: ErrorView,
) -> Result<ResponseView<JsonValue>, ErrorView> {
    match fetched {
        Fetched::Answer { headers, body } => answered(
            entity_outcome(body@, key, malformed, not_found),
            headers,
        ),
        _ => Err(transport_failure(fetched)->0),
    }
}

/// What the caller of an endpoint that lists names gets for `fetched`.
pub open spec fn names_answer(fetched: Fetched, key: Seq<char>, malformed: ErrorView) -> Result<
    ResponseView<Seq<String>>,
    ErrorView,
> {
    match fetched {
        Fetched::Answer { headers, body } => answered(names_outcome(body@, key, malformed), headers),
        _ => Err(transport_failure(fetched)->0),
    }
}

/// A response whose content is a list, with the list seen as a sequence.
pub open spec fn listed_response<T>(res: Result<ResponseView<Vec<T>>, ErrorView>) -> Result<
    ResponseView<Seq<T>>,
    ErrorView,
> {
    match res {
        Ok(response) => Ok(
            ResponseView {
                content: response.content@,
                page_size: response.page_size,
                count: response.count,
                total_count: response.total_count,
                ratelimit_limit: response.ratelimit_limit,
                ratelimit_remaining: response.ratelimit_remaining,
            },
        ),
        Err(kind) => Err(kind),
    }
}

impl Fetched {
    /// The headers and the body of the answer, or the error that stands for
    /// the way in which no answer came.
    pub fn into_answer(self) -> (res: Result<(HeaderMap, String), MtgApiErrorKind>)
        ensures
            match self {
                Fetched::Answer { headers, body } => res == Ok::<
                    (HeaderMap, String),
                    MtgApiErrorKind,
                >((headers, body)),
                _ => res is Err && Some(res->Err_0@) == transport_failure(self),
            },
    {
        match self {
            Fetched::ClientDropped => Err(MtgApiErrorKind::ClientDropped),
            Fetched::HttpError => Err(MtgApiErrorKind::HttpError),
            Fetched::BodyReadError => Err(MtgApiErrorKind::BodyReadError),
            Fetched::Answer { headers, body } => Ok((headers, body)),
        }
    }
}

/// Puts the content of an answer together with the counters of its headers.
/// An error in the content stays the error; content stays content, whatever
/// the headers hold.
pub fn answer<T>(content: Result<T, MtgApiErrorKind>, headers: &HeaderMap) -> (res: Result<
    ApiResponse<T>,
    MtgApiErrorKind,
>)
    ensures
        response_outcome(res) == answered(outcome(content), *headers),
{
    match content {
        Ok(content) => Ok(ApiResponse::new(content, headers)),
        Err(kind) => Err(kind),
    }
}

} // verus!
