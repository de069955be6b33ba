//! JSON documents as plain trees, and the reading of a response body into one.

use vstd::prelude::*;

verus! {

/// A JSON value. A number keeps the text it is written with; an object keeps
/// its fields as a list.
#[derive(Debug, PartialEq, Eq)]
pub enum JsonValue {
    Null,
    Bool(bool),
    Number(String),
    Text(String),
    List(Vec<JsonValue>),
    Object(Vec<JsonField>),
}

/// One field of a JSON object.
#[derive(Debug, PartialEq, Eq)]
pub struct JsonField {
    pub name: String,
    pub value: JsonValue,
}

#[verifier::external_type_specification]
#[verifier::external_body]
pub struct ExParsedValue(serde_json::Value);

#[verifier::external_type_specification]
#[verifier::external_body]
pub struct ExParseError(serde_json::Error);

/// The tree that stands for a parsed value: null, booleans and strings as
/// they are, a number by the text it displays as, an array by its items in
/// order, an object by its fields in the order the parsed value walks them.
pub uninterp spec fn value_tree(value: serde_json::Value) -> JsonValue;

/// What the text of a body parses to as JSON: its tree, or `None` where the
/// text is no JSON document.
pub uninterp spec fn parsed_tree(text: Seq<char>) -> Option<JsonValue>;

/// `serde_json::from_str` at the type `serde_json::Value`. The outcome
/// depends on the text alone: either the value whose tree `parsed_tree`
/// names, or an error where `parsed_tree` names none.
#[verifier::external_body]
fn read_value(body: &str) -> (res: Result<serde_json::Value, serde_json::Error>)
    ensures
        match res {
            Ok(value) => parsed_tree(body@) == Some(value_tree(value)),
            Err(_) => parsed_tree(body@) is None,
        },
{
    serde_json::from_str::<serde_json::Value>(body)
}

/// Takes a `serde_json::Value` apart, variant by variant, into the tree that
/// `value_tree` names. A number goes through `Number`'s `Display`.
#[verifier::external_body]
fn tree_of(value: serde_json::Value) -> (res: JsonValue)
    ensures
        res == value_tree(value),
{
    match value {
        serde_json::Value::Null => JsonValue::Null,
        serde_json::Value::Bool(b) => JsonValue::Bool(b),
        serde_json::Value::Number(n) => JsonValue::Number(n.to_string()),
        serde_json::Value::String(s) => JsonValue::Text(s),
        serde_json::Value::Array(items) => JsonValue::List(items.into_iter().map(tree_of).collect()),
        serde_json::Value::Object(fields) => JsonValue::Object(
            fields.into_iter().map(|(name, v)| JsonField { name, value: tree_of(v) }).collect(),
        ),
    }
}

/// Reads a response body as JSON. `None` means the body is not JSON at all.
pub fn parse_body(body: &str) -> (res: Option<JsonValue>)
    ensures
        res == parsed_tree(body@),
{
    match read_value(body) {
        Ok(value) => Some(tree_of(value)),
        Err(_) => None,
    }
}

/// The value of the first field of `fields` that is named `key`.
pub open spec fn lookup(fields: Seq<JsonField>, key: Seq<char>) -> Option<JsonValue>
    decreases fields.len(),
{
    if fields.len() == 0 {
        None
    } else if fields[0].name@ == key {
        Some(fields[0].value)
    } else {
        lookup(fields.skip(1), key)
    }
}

/// The place of the first field of `fields` that is named `key`.
pub fn find_field(fields: &Vec<JsonField>, key: &str) -> (res: Option<usize>)
    ensures
        match res {
            Some(i) => i < fields@.len() && lookup(fields@, key@) == Some(fields@[i as int].value),
            None => lookup(fields@, key@) is None,
        },
{
    let wanted = key.to_owned();
    let mut i: usize = 0;
    assert(fields@.skip(0) =~= fields@);
    while i < fields.len()
        invariant
            i <= fields@.len(),
            wanted@ == key@,
            lookup(fields@, key@) == lookup(fields@.skip(i as int), key@),
        decreases fields.len() - i,
    {
        if fields[i].name == wanted {
            assert(fields@.skip(i as int)[0] == fields@[i as int]);
            return Some(i);
        }
        assert(fields@.skip(i as int)[0] == fields@[i as int]);
        assert(fields@.skip(i as int).skip(1) =~= fields@.skip(i as int + 1));
        i += 1;
    }
    assert(fields@.skip(i as int).len() == 0);
    None
}

} // verus!
