//! The set endpoints: all sets, one set by its code, a booster of a set.

use crate::api::error::{ErrorView, MtgApiErrorKind};
use crate::api::json::JsonValue;
use crate::api::response::ApiResponse;
use crate::api::set::filter::SetFilter;
use crate::api::transport::{answer, entity_answer, list_answer, response_outcome, Fetched};
use crate::api::util::{retrieve_cards_from_body, retrieve_set_from_body, retrieve_sets_from_body};
use vstd::prelude::*;

verus! {

/// The address of the set collection at `api_url`, with `filter` as its
/// query unless the filter is empty.
pub open spec fn sets_url(api_url: Seq<char>, filter: Seq<char>) -> Seq<char> {
    if filter.len() == 0 {
        api_url + "/sets"@
    } else {
        api_url + "/sets"@ + "?"@ + filter
    }
}

/// The set endpoints of the service at one address.
pub struct SetApi {
    url: String,
}

impl View for SetApi {
    type V = Seq<char>;

    /// The address of the service.
    closed spec fn view(&self) -> Seq<char> {
        self.url@
    }
}

impl SetApi {
    /// The set endpoints of the service at `url`.
    pub fn new(url: String) -> (res: SetApi)
        ensures
            res@ == url@,
    {
        SetApi { url }
    }

    /// The address to ask for all sets.
    pub fn all_url(&self) -> (res: String)
        ensures
            res@ == self@ + "/sets"@,
    {
        let mut url = self.url.clone();
        url.append("/sets");
        url
    }

    /// The sets in what came back from the address of `all_url`.
    pub fn all(&self, fetched: Fetched) -> (res: Result<
        ApiResponse<Vec<JsonValue>>,
        MtgApiErrorKind,
    >)
        ensures
            response_outcome(res) == list_answer(fetched, "sets"@, ErrorView::SetBodyParseError),
    {
        match fetched.into_answer() {
            Ok((headers, body)) => answer(retrieve_sets_from_body(body.as_str()), &headers),
            Err(kind) => Err(kind),
        }
    }

    /// The address to ask for the sets that match `filter`.
    pub fn all_filtered_url(&self, filter: SetFilter) -> (res: String)
        ensures
            res@ == sets_url(self@, filter@),
    {
        SetApi::create_filtered_url(self.url.as_str(), filter)
    }

    /// The sets in what came back from the address of `all_filtered_url`.
    pub fn all_filtered(&self, fetched: Fetched) -> (res: Result<
        ApiResponse<Vec<JsonValue>>,
        MtgApiErrorKind,
    >)
        ensures
            response_outcome(res) == list_answer(fetched, "sets"@, ErrorView::SetBodyParseError),
    {
        self.all(fetched)
    }

    /// The address to ask for the set with the code `code`.
    pub fn find_url(&self, code: &str) -> (res: String)
        ensures
            res@ == self@ + "/sets/"@ + code@,
    {
        let mut url = self.url.clone();
        url.append("/sets/");
        url.append(code);
        url
    }

    /// The set in what came back from the address of `find_url`.
    pub fn find(&self, fetched: Fetched) -> (res: Result<ApiResponse<JsonValue>, MtgApiErrorKind>)
        ensures
            response_outcome(res) == entity_answer(
                fetched,
                "set"@,
                ErrorView::SetBodyParseError,
                ErrorView::SetNotFound,
            ),
    {
        match fetched.into_answer() {
            Ok((headers, body)) => answer(retrieve_set_from_body(body.as_str()), &headers),
            Err(kind) => Err(kind),
        }
    }

    /// The address to ask for a sample booster of the set with the code
    /// `code`.
    pub fn booster_url(&self, code: &str) -> (res: String)
        ensures
            res@ == self@ + "/sets/"@ + code@ + "/booster"@,
    {
        let mut url = self.url.clone();
        url.append("/sets/");
        url.append(code);
        url.append("/booster");
        url
    }

    /// The cards in what came back from the address of `booster_url`.
    pub fn booster(&self, fetched: Fetched) -> (res: Result<
        ApiResponse<Vec<JsonValue>>,
        MtgApiErrorKind,
    >)
        ensures
            response_outcome(res) == list_answer(fetched, "cards"@, ErrorView::CardBodyParseError),
    {
        match fetched.into_answer() {
            Ok((headers, body)) => answer(retrieve_cards_from_body(body.as_str()), &headers),
            Err(kind) => Err(kind),
        }
    }

    fn create_filtered_url(api_url: &str, filter: SetFilter) -> (res: String)
        ensures
            res@ == sets_url(api_url@, filter@),
    {
        let mut url = api_url.to_owned();
        url.append("/sets");
        if filter.0.as_str().is_empty() {
            url
        } else {
            url.append("?");
            url.append(filter.0.as_str());
            url
        }
    }
}

} // verus!
