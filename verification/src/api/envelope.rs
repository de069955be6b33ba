//! The two shapes of an answer's body: the content that was asked for, or
//! an error that the service reports.
//!
//! The service sends no tag. Which shape a document has is decided by the
//! fields it holds: a document with an `error` field is an error, whatever
//! else it holds; otherwise the field named after the content decides.
//! Fields that are not asked for are passed over.

use crate::api::error::{outcome, ErrorView, MtgApiErrorKind};
use crate::api::json::{find_field, lookup, JsonField, JsonValue};
use vstd::prelude::*;

verus! {

/// What a well-formed answer says.
#[derive(Debug, PartialEq, Eq)]
pub enum ResponseEnvelope<T> {
    /// The content that was asked for.
    Success(T),
    /// The service refused; `status` is the code it sent along, if any.
    ServiceError { message: String, status: Option<String> },
}

/// Why a document is neither content nor a service error.
#[derive(Copy, Clone, Debug, PartialEq, Eq)]
pub enum DecodeFailure {
    /// The document has none of the shapes the service is known to send.
    Malformed,
    /// The document is an answer to a request for one entity and holds none.
    NotFound,
}

/// The status that comes with a service error: none where the field is
/// absent or null, the code where it is a string or a number.
pub open spec fn status_reading(fields: Seq<JsonField>) -> Result<Option<String>, DecodeFailure> {
    match lookup(fields, "status"@) {
        None => Ok(None),
        Some(JsonValue::Null) => Ok(None),
        Some(JsonValue::Text(code)) => Ok(Some(code)),
        Some(JsonValue::Number(code)) => Ok(Some(code)),
        Some(_) => Err(DecodeFailure::Malformed),
    }
}

/// What the `error` field of an object says: nothing where there is none,
/// a service error where it is a string.
pub open spec fn error_reading<T>(fields: Seq<JsonField>) -> Option<
    Result<ResponseEnvelope<T>, DecodeFailure>,
> {
    match lookup(fields, "error"@) {
        None => None,
        Some(JsonValue::Text(message)) => Some(
            match status_reading(fields) {
                Ok(status) => Ok(ResponseEnvelope::ServiceError { message, status }),
                Err(failure) => Err(failure),
            },
        ),
        Some(_) => Some(Err(DecodeFailure::Malformed)),
    }
}

/// The answer of a collection endpoint whose content is the list under `key`.
/// An empty list is content like any other.
pub open spec fn list_reading(doc: JsonValue, key: Seq<char>) -> Result<
    ResponseEnvelope<Vec<JsonValue>>,
    DecodeFailure,
> {
    match doc {
        JsonValue::Object(fields) => match error_reading(fields@) {
            Some(reading) => reading,
            None => match lookup(fields@, key) {
                Some(JsonValue::List(items)) => Ok(ResponseEnvelope::Success(items)),
                _ => Err(DecodeFailure::Malformed),
            },
        },
        _ => Err(DecodeFailure::Malformed),
    }
}

/// The answer of an item endpoint whose content is the object under `key`.
/// Where that field is absent or null, nothing was found.
pub open spec fn entity_reading(doc: JsonValue, key: Seq<char>) -> Result<
    ResponseEnvelope<JsonValue>,
    DecodeFailure,
> {
    match doc {
        JsonValue::Object(fields) => match error_reading(fields@) {
            Some(reading) => reading,
            None => match lookup(fields@, key) {
                None => Err(DecodeFailure::NotFound),
                Some(JsonValue::Null) => Err(DecodeFailure::NotFound),
                Some(JsonValue::Object(entity)) => Ok(
                    ResponseEnvelope::Success(JsonValue::Object(entity)),
                ),
                Some(_) => Err(DecodeFailure::Malformed),
            },
        },
        _ => Err(DecodeFailure::Malformed),
    }
}

/// Every item is a string.
pub open spec fn all_text(items: Seq<JsonValue>) -> bool {
    forall|i: int| 0 <= i < items.len() ==> #[trigger] items[i] is Text
}

/// The strings of a list of string items.
pub open spec fn text_items(items: Seq<JsonValue>) -> Seq<String> {
    items.map_values(|item: JsonValue| item->Text_0)
}

/// The content of a list of names, item by item.
pub open spec fn name_views(r: Result<ResponseEnvelope<Vec<String>>, DecodeFailure>) -> Result<
    ResponseEnvelope<Seq<String>>,
    DecodeFailure,
> {
    match r {
        Ok(ResponseEnvelope::Success(names)) => Ok(ResponseEnvelope::Success(names@)),
        Ok(ResponseEnvelope::ServiceError { message, status }) => Ok(
            ResponseEnvelope::ServiceError { message, status },
        ),
        Err(failure) => Err(failure),
    }
}

/// The answer of an endpoint whose content is the list of strings under `key`.
pub open spec fn names_reading(doc: JsonValue, key: Seq<char>) -> Result<
    ResponseEnvelope<Seq<String>>,
    DecodeFailure,
> {
    match list_reading(doc, key) {
        Ok(ResponseEnvelope::Success(items)) => if all_text(items@) {
            Ok(ResponseEnvelope::Success(text_items(items@)))
        } else {
            Err(DecodeFailure::Malformed)
        },
        Ok(ResponseEnvelope::ServiceError { message, status }) => Ok(
            ResponseEnvelope::ServiceError { message, status },
        ),
        Err(failure) => Err(failure),
    }
}

fn status_of(fields: &Vec<JsonField>) -> (res: Result<Option<String>, DecodeFailure>)
    ensures
        res == status_reading(fields@),
{
    match find_field(fields, "status") {
        None => Ok(None),
        Some(i) => match &fields[i].value {
            JsonValue::Null => Ok(None),
            JsonValue::Text(code) => Ok(Some(code.clone())),
            JsonValue::Number(code) => Ok(Some(code.clone())),
            _ => Err(DecodeFailure::Malformed),
        },
    }
}

fn error_of<T>(fields: &Vec<JsonField>) -> (res: Option<Result<ResponseEnvelope<T>, DecodeFailure>>)
    ensures
        res == error_reading::<T>(fields@),
{
    match find_field(fields, "error") {
        None => None,
        Some(i) => match &fields[i].value {
            JsonValue::Text(message) => match status_of(fields) {
                Ok(status) => Some(
                    Ok(ResponseEnvelope::ServiceError { message: message.clone(), status }),
                ),
                Err(failure) => Some(Err(failure)),
            },
            _ => Some(Err(DecodeFailure::Malformed)),
        },
    }
}

/// Reads the answer of a collection endpoint whose content is the list
/// under `key`.
pub fn list_envelope(doc: JsonValue, key: &str) -> (res: Result<
    ResponseEnvelope<Vec<JsonValue>>,
    DecodeFailure,
>)
    ensures
        res == list_reading(doc, key@),
{
    match doc {
        JsonValue::Object(fields) => {
            let mut fields = fields;
            match error_of(&fields) {
                Some(reading) => reading,
                None => match find_field(&fields, key) {
                    None => Err(DecodeFailure::Malformed),
                    Some(i) => {
                        let field = fields.remove(i);
                        match field.value {
                            JsonValue::List(items) => Ok(ResponseEnvelope::Success(items)),
                            _ => Err(DecodeFailure::Malformed),
                        }
                    },
                },
            }
        },
        _ => Err(DecodeFailure::Malformed),
    }
}

/// Reads the answer of an item endpoint whose content is the object under
/// `key`.
pub fn entity_envelope(doc: JsonValue, key: &str) -> (res: Result<
    ResponseEnvelope<JsonValue>,
    DecodeFailure,
>)
    ensures
        res == entity_reading(doc, key@),
{
    match doc {
        JsonValue::Object(fields) => {
            let mut fields = fields;
            match error_of(&fields) {
                Some(reading) => reading,
                None => match find_field(&fields, key) {
                    None => Err(DecodeFailure::NotFound),
                    Some(i) => {
                        let field = fields.remove(i);
                        match field.value {
                            JsonValue::Null => Err(DecodeFailure::NotFound),
                            JsonValue::Object(entity) => Ok(
                                ResponseEnvelope::Success(JsonValue::Object(entity)),
                            ),
                            _ => Err(DecodeFailure::Malformed),
                        }
                    },
                },
            }
        },
        _ => Err(DecodeFailure::Malformed),
    }
}

/// Reads the answer of an endpoint whose content is the list of strings
/// under `key`.
pub fn names_envelope(doc: JsonValue, key: &str) -> (res: Result<
    ResponseEnvelope<Vec<String>>,
    DecodeFailure,
>)
    ensures
        name_views(res) == names_reading(doc, key@),
{
    match list_envelope(doc, key) {
        Ok(ResponseEnvelope::Success(items)) => {
            let mut names: Vec<String> = Vec::new();
            let mut i: usize = 0;
            while i < items.len()
                invariant
                    i <= items@.len(),
                    names@.len() == i,
                    list_reading(doc, key@) == Ok::<ResponseEnvelope<Vec<JsonValue>>, DecodeFailure>(
                        ResponseEnvelope::Success(items),
                    ),
                    forall|j: int| 0 <= j < i ==> #[trigger] items@[j] is Text,
                    forall|j: int| 0 <= j < i ==> #[trigger] names@[j] == items@[j]->Text_0,
                decreases items.len() - i,
            {
                match &items[i] {
                    JsonValue::Text(name) => {
                        names.push(name.clone());
                    },
                    _ => {
                        assert(!(items@[i as int] is Text));
                        return Err(DecodeFailure::Malformed);
                    },
                }
                i += 1;
            }
            assert(names@ =~= text_items(items@));
            Ok(ResponseEnvelope::Success(names))
        },
        Ok(ResponseEnvelope::ServiceError { message, status }) => Ok(
            ResponseEnvelope::ServiceError { message, status },
        ),
        Err(failure) => Err(failure),
    }
}

/// The one line that describes a service error: the status, where there is
/// one, then the message.
pub open spec fn error_description(message: Seq<char>, status: Option<Seq<char>>) -> Seq<char> {
    match status {
        Some(code) => code + seq![':', ' '] + message,
        None => message,
    }
}

/// The text of a status, where there is one.
pub open spec fn status_text(status: Option<String>) -> Option<Seq<char>> {
    match status {
        Some(code) => Some(code@),
        None => None,
    }
}

/// What the caller of an endpoint gets for `envelope`: the content, or the
/// service's error in one line, or `malformed`, or `not_found`.
pub open spec fn settled<T>(
    envelope: Result<ResponseEnvelope<T>, DecodeFailure>,
    malformed: ErrorView,
    not_found: ErrorView,
) -> Result<T, ErrorView> {
    match envelope {
        Ok(ResponseEnvelope::Success(content)) => Ok(content),
        Ok(ResponseEnvelope::ServiceError { message, status }) => Err(
            ErrorView::ApiError { cause: error_description(message@, status_text(status)) },
        ),
        Err(DecodeFailure::Malformed) => Err(malformed),
        Err(DecodeFailure::NotFound) => Err(not_found),
    }
}

/// Turns what was read into what the caller of an endpoint gets.
pub fn settle<T>(
    envelope: Result<ResponseEnvelope<T>, DecodeFailure>,
    malformed: MtgApiErrorKind,
    not_found: MtgApiErrorKind,
) -> (res: Result<T, MtgApiErrorKind>)
    ensures
        outcome(res) == settled(envelope, malformed@, not_found@),
{
    match envelope {
        Ok(ResponseEnvelope::Success(content)) => Ok(content),
        Ok(ResponseEnvelope::ServiceError { message, status }) => {
            proof {
                reveal_strlit(": ");
            }
            match status {
                Some(code) => {
                    let mut cause = code;
                    cause.append(": ");
                    cause.append(message.as_str());
                    assert(cause@ =~= error_description(message@, Some(code@)));
                    Err(MtgApiErrorKind::ApiError { cause })
                },
                None => Err(MtgApiErrorKind::ApiError { cause: message }),
            }
        },
        Err(DecodeFailure::Malformed) => Err(malformed),
        Err(DecodeFailure::NotFound) => Err(not_found),
    }
}

/// A document without an `error` field whose content field holds a list is
/// content, whatever the list holds: an empty list is neither an error nor
/// a missing entity.
pub proof fn lemma_list_is_content(fields: Vec<JsonField>, key: Seq<char>, items: Vec<JsonValue>)
    requires
        lookup(fields@, "error"@) is None,
        lookup(fields@, key) == Some(JsonValue::List(items)),
    ensures
        list_reading(JsonValue::Object(fields), key) == Ok::<
            ResponseEnvelope<Vec<JsonValue>>,
            DecodeFailure,
        >(ResponseEnvelope::Success(items)),
{
}

/// A document without an `error` field whose content field is missing or
/// null says that nothing was found. That is not a malformed document.
pub proof fn lemma_absent_entity_is_not_found(fields: Vec<JsonField>, key: Seq<char>)
    requires
        lookup(fields@, "error"@) is None,
        lookup(fields@, key) is None || lookup(fields@, key) == Some(JsonValue::Null),
    ensures
        entity_reading(JsonValue::Object(fields), key) == Err::<
            ResponseEnvelope<JsonValue>,
            DecodeFailure,
        >(DecodeFailure::NotFound),
{
}

/// A document with an `error` field is never content, at any endpoint and
/// whatever else it holds.
pub proof fn lemma_error_field_decides(fields: Vec<JsonField>, key: Seq<char>)
    requires
        lookup(fields@, "error"@) is Some,
    ensures
        !(list_reading(JsonValue::Object(fields), key) matches Ok(ResponseEnvelope::Success(_))),
        !(entity_reading(JsonValue::Object(fields), key) matches Ok(ResponseEnvelope::Success(_))),
        !(names_reading(JsonValue::Object(fields), key) matches Ok(ResponseEnvelope::Success(_))),
{
}

} // verus!
