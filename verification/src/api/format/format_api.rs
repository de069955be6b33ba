//! The endpoint that lists the names of the game formats.

use crate::api::error::{ErrorView, MtgApiErrorKind};
use crate::api::response::ApiResponse;
use crate::api::transport::{
    answer, listed_response, names_answer, response_outcome, Fetched,
};
use crate::api::util::retrieve_formats_from_body;
use vstd::prelude::*;

verus! {

/// The format endpoint of the service at one address.
pub struct FormatApi {
    url: String,
}

impl View for FormatApi {
    type V = Seq<char>;

    /// The address of the service.
    closed spec fn view(&self) -> Seq<char> {
        self.url@
    }
}

impl FormatApi {
    /// The format endpoint of the service at `url`.
    pub fn new(url: String) -> (res: FormatApi)
        ensures
            res@ == url@,
    {
        FormatApi { url }
    }

    /// The address to ask for all game formats.
    pub fn all_url(&self) -> (res: String)
        ensures
            res@ == self@ + "/formats"@,
    {
        let mut url = self.url.clone();
        url.append("/formats");
        url
    }

    /// The game formats in what came back from the address of `all_url`.
    pub fn all(&self, fetched: Fetched) -> (res: Result<ApiResponse<Vec<String>>, MtgApiErrorKind>)
        ensures
            listed_response(response_outcome(res)) == names_answer(
                fetched,
                "formats"@,
                ErrorView::FormatBodyParseError,
            ),
    {
        match fetched.into_answer() {
            Ok((headers, body)) => answer(retrieve_formats_from_body(body.as_str()), &headers),
            Err(kind) => Err(kind),
        }
    }
}

} // verus!
