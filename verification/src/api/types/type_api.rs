//! The endpoints that list the names of types, subtypes and supertypes.

use crate::api::error::{ErrorView, MtgApiErrorKind};
use crate::api::response::ApiResponse;
use crate::api::transport::{
    answer, listed_response, names_answer, response_outcome, Fetched,
};
use crate::api::util::{
    retrieve_subtypes_from_body, retrieve_supertypes_from_body, retrieve_types_from_body,
};
use vstd::prelude::*;

verus! {

/// The type endpoint of the service at one address.
pub struct TypeApi {
    url: String,
}

/// The subtype endpoint of the service at one address.
pub struct SubtypeApi {
    url: String,
}

/// The supertype endpoint of the service at one address.
pub struct SupertypeApi {
    url: String,
}

impl View for TypeApi {
    type V = Seq<char>;

    /// The address of the service.
    closed spec fn view(&self) -> Seq<char> {
        self.url@
    }
}

impl View for SubtypeApi {
    type V = Seq<char>;

    /// The address of the service.
    closed spec fn view(&self) -> Seq<char> {
        self.url@
    }
}

impl View for SupertypeApi {
    type V = Seq<char>;

    /// The address of the service.
    closed spec fn view(&self) -> Seq<char> {
        self.url@
    }
}

impl TypeApi {
    /// The type endpoint of the service at `url`.
    pub fn new(url: String) -> (res: TypeApi)
        ensures
            res@ == url@,
    {
        TypeApi { url }
    }

    /// The address to ask for all types.
    pub fn all_url(&self) -> (res: String)
        ensures
            res@ == self@ + "/types"@,
    {
        let mut url = self.url.clone();
        url.append("/types");
        url
    }

    /// The types in what came back from the address of `all_url`.
    pub fn all(&self, fetched: Fetched) -> (res: Result<ApiResponse<Vec<String>>, MtgApiErrorKind>)
        ensures
            listed_response(response_outcome(res)) == names_answer(
                fetched,
                "types"@,
                ErrorView::TypeBodyParseError,
            ),
    {
        match fetched.into_answer() {
            Ok((headers, body)) => answer(retrieve_types_from_body(body.as_str()), &headers),
            Err(kind) => Err(kind),
        }
    }
}

impl SubtypeApi {
    /// The subtype endpoint of the service at `url`.
    pub fn new(url: String) -> (res: SubtypeApi)
        ensures
            res@ == url@,
    {
        SubtypeApi { url }
    }

    /// The address to ask for all subtypes.
    pub fn all_url(&self) -> (res: String)
        ensures
            res@ == self@ + "/subtypes"@,
    {
        let mut url = self.url.clone();
        url.append("/subtypes");
        url
    }

    /// The subtypes in what came back from the address of `all_url`.
    pub fn all(&self, fetched: Fetched) -> (res: Result<ApiResponse<Vec<String>>, MtgApiErrorKind>)
        ensures
            listed_response(response_outcome(res)) == names_answer(
                fetched,
                "subtypes"@,
                ErrorView::TypeBodyParseError,
            ),
    {
        match fetched.into_answer() {
            Ok((headers, body)) => answer(retrieve_subtypes_from_body(body.as_str()), &headers),
            Err(kind) => Err(kind),
        }
    }
}

impl SupertypeApi {
    /// The supertype endpoint of the service at `url`.
    pub fn new(url: String) -> (res: SupertypeApi)
        ensures
            res@ == url@,
    {
        SupertypeApi { url }
    }

    /// The address to ask for all supertypes.
    pub fn all_url(&self) -> (res: String)
        ensures
            res@ == self@ + "/supertypes"@,
    {
        let mut url = self.url.clone();
        url.append("/supertypes");
        url
    }

    /// The supertypes in what came back from the address of `all_url`.
    pub fn all(&self, fetched: Fetched) -> (res: Result<ApiResponse<Vec<String>>, MtgApiErrorKind>)
        ensures
            listed_response(response_outcome(res)) == names_answer(
                fetched,
                "supertypes"@,
                ErrorView::TypeBodyParseError,
            ),
    {
        match fetched.into_answer() {
            Ok((headers, body)) => answer(retrieve_supertypes_from_body(body.as_str()), &headers),
            Err(kind) => Err(kind),
        }
    }
}

} // verus!
