//! From the body of an answer to what the caller of an endpoint gets.
//!
//! Cards and sets are handed on as JSON trees: their records are the
//! caller's to read.

use crate::api::envelope::{
    entity_envelope, entity_reading, list_envelope, list_reading, names_envelope, names_reading,
    settle, settled,
};
use crate::api::error::{outcome, ErrorView, MtgApiErrorKind};
use crate::api::json::{parse_body, parsed_tree, JsonValue};
use vstd::prelude::*;

verus! {

/// A result whose content is a list, with the list seen as a sequence.
pub open spec fn listed<T>(res: Result<Vec<T>, ErrorView>) -> Result<Seq<T>, ErrorView> {
    match res {
        Ok(items) => Ok(items@),
        Err(kind) => Err(kind),
    }
}

/// What a body gives at a collection endpoint whose content is the list
/// under `key`; `malformed` where the body is no JSON or has neither shape
/// of an answer.
pub open spec fn list_outcome(body: Seq<char>, key: Seq<char>, malformed: ErrorView) -> Result<
    Vec<JsonValue>,
    ErrorView,
> {
    match parsed_tree(body) {
        Some(doc) => settled(list_reading(doc, key), malformed, malformed),
        None => Err(malformed),
    }
}

/// What a body gives at an item endpoint whose content is the object under
/// `key`; `not_found` where the body holds no entity.
pub open spec fn entity_outcome(
    body: Seq<char>,
    key: Seq<char>,
    malformed: ErrorView,
    not_found: ErrorView,
) -> Result<JsonValue, ErrorView> {
    match parsed_tree(body) {
        Some(doc) => settled(entity_reading(doc, key), malformed, not_found),
        None => Err(malformed),
    }
}

/// What a body gives at an endpoint whose content is the list of strings
/// under `key`.
pub open spec fn names_outcome(body: Seq<char>, key: Seq<char>, malformed: ErrorView) -> Result<
    Seq<String>,
    ErrorView,
> {
    match parsed_tree(body) {
        Some(doc) => settled(names_reading(doc, key), malformed, malformed),
        None => Err(malformed),
    }
}

/// The cards in the body of an answer from a card collection endpoint.
/// A body that is no JSON, or has neither shape of an answer, is a parse error.
pub fn retrieve_cards_from_body(body: &str) -> (res: Result<Vec<JsonValue>, MtgApiErrorKind>)
    ensures
        outcome(res) == list_outcome(body@, "cards"@, ErrorView::CardBodyParseError),
{
    match parse_body(body) {
        Some(doc) => settle(list_envelope(doc, "cards"), MtgApiErrorKind::CardBodyParseError, MtgApiErrorKind::CardBodyParseError),
        None => Err(MtgApiErrorKind::CardBodyParseError),
    }
}

/// The card in the body of an answer to a request for one card.
/// A body without the entity gives the not-found error; one that is no JSON, or
/// has neither shape of an answer, is a parse error.
pub fn retrieve_card_from_body(body: &str) -> (res: Result<JsonValue, MtgApiErrorKind>)
    ensures
        outcome(res) == entity_outcome(body@, "card"@, ErrorView::CardBodyParseError, ErrorView::CardNotFound),
{
    match parse_body(body) {
        Some(doc) => settle(entity_envelope(doc, "card"), MtgApiErrorKind::CardBodyParseError, MtgApiErrorKind::CardNotFound),
        None => Err(MtgApiErrorKind::CardBodyParseError),
    }
}

/// The sets in the body of an answer from the set collection endpoint.
/// A body that is no JSON, or has neither shape of an answer, is a parse error.
pub fn retrieve_sets_from_body(body: &str) -> (res: Result<Vec<JsonValue>, MtgApiErrorKind>)
    ensures
        outcome(res) == list_outcome(body@, "sets"@, ErrorView::SetBodyParseError),
{
    match parse_body(body) {
        Some(doc) => settle(list_envelope(doc, "sets"), MtgApiErrorKind::SetBodyParseError, MtgApiErrorKind::SetBodyParseError),
        None => Err(MtgApiErrorKind::SetBodyParseError),
    }
}

/// The set in the body of an answer to a request for one set.
/// A body without the entity gives the not-found error; one that is no JSON, or
/// has neither shape of an answer, is a parse error.
pub fn retrieve_set_from_body(body: &str) -> (res: Result<JsonValue, MtgApiErrorKind>)
    ensures
        outcome(res) == entity_outcome(body@, "set"@, ErrorView::SetBodyParseError, ErrorView::SetNotFound),
{
    match parse_body(body) {
        Some(doc) => settle(entity_envelope(doc, "set"), MtgApiErrorKind::SetBodyParseError, MtgApiErrorKind::SetNotFound),
        None => Err(MtgApiErrorKind::SetBodyParseError),
    }
}

/// The game formats in the body of an answer from the format endpoint.
/// A body that is no JSON, or has neither shape of an answer, is a parse error.
pub fn retrieve_formats_from_body(body: &str) -> (res: Result<Vec<String>, MtgApiErrorKind>)
    ensures
        listed(outcome(res)) == names_outcome(body@, "formats"@, ErrorView::FormatBodyParseError),
{
    match parse_body(body) {
        Some(doc) => settle(names_envelope(doc, "formats"), MtgApiErrorKind::FormatBodyParseError, MtgApiErrorKind::FormatBodyParseError),
        None => Err(MtgApiErrorKind::FormatBodyParseError),
    }
}

/// The card types in the body of an answer from the type endpoint.
/// A body that is no JSON, or has neither shape of an answer, is a parse error.
pub fn retrieve_types_from_body(body: &str) -> (res: Result<Vec<String>, MtgApiErrorKind>)
    ensures
        listed(outcome(res)) == names_outcome(body@, "types"@, ErrorView::TypeBodyParseError),
{
    match parse_body(body) {
        Some(doc) => settle(names_envelope(doc, "types"), MtgApiErrorKind::TypeBodyParseError, MtgApiErrorKind::TypeBodyParseError),
        None => Err(MtgApiErrorKind::TypeBodyParseError),
    }
}

/// The subtypes in the body of an answer from the subtype endpoint.
/// A body that is no JSON, or has neither shape of an answer, is a parse error.
pub fn retrieve_subtypes_from_body(body: &str) -> (res: Result<Vec<String>, MtgApiErrorKind>)
    ensures
        listed(outcome(res)) == names_outcome(body@, "subtypes"@, ErrorView::TypeBodyParseError),
{
    match parse_body(body) {
        Some(doc) => settle(names_envelope(doc, "subtypes"), MtgApiErrorKind::TypeBodyParseError, MtgApiErrorKind::TypeBodyParseError),
        None => Err(MtgApiErrorKind::TypeBodyParseError),
    }
}

/// The supertypes in the body of an answer from the supertype endpoint.
/// A body that is no JSON, or has neither shape of an answer, is a parse error.
pub fn retrieve_supertypes_from_body(body: &str) -> (res: Result<Vec<String>, MtgApiErrorKind>)
    ensures
        listed(outcome(res)) == names_outcome(body@, "supertypes"@, ErrorView::TypeBodyParseError),
{
    match parse_body(body) {
        Some(doc) => settle(names_envelope(doc, "supertypes"), MtgApiErrorKind::TypeBodyParseError, MtgApiErrorKind::TypeBodyParseError),
        None => Err(MtgApiErrorKind::TypeBodyParseError),
    }
}

} // verus!
