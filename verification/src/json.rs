//! The boundary to the JSON library: its value and error types, and the three
//! calls that the pipeline makes into it.

use crate::message::fields_map;
use serde_json::Value;
use std::collections::BTreeMap;
use vstd::prelude::*;

verus! {

/// A JSON value of any shape. Its inside is not visible here: values are
/// carried from the parser to the serializer unchanged.
#[verifier::external_type_specification]
#[verifier::external_body]
pub struct ExValue(serde_json::Value);

/// What the JSON library reports when parsing or serializing fails.
#[verifier::external_type_specification]
#[verifier::external_body]
pub struct ExJsonError(serde_json::Error);

/// The JSON string value that holds the given text.
pub uninterp spec fn json_string(text: Seq<char>) -> Value;

/// The fields of the JSON object that a text spells, or `None` where the text
/// is not one JSON object.
pub uninterp spec fn json_object(text: Seq<char>) -> Option<Map<Seq<char>, Value>>;

/// The JSON serialization of an object with the given fields, or `None` where
/// they cannot be serialized.
pub uninterp spec fn json_bytes(fields: Map<Seq<char>, Value>) -> Option<Seq<u8>>;

/// Calls `serde_json::Value::from` on a string slice.
///
/// Trusted: the result is the JSON string value of that text.
#[verifier::external_body]
pub(crate) fn string_value(text: &str) -> (value: Value)
    ensures
        value == json_string(text@),
{
    Value::from(text)
}

/// Calls `serde_json::from_str` for a map from field names to values, and
/// lists the entries of that map in the order of their names.
///
/// Trusted: whether the call succeeds and which fields it yields depend on the
/// text alone, as `json_object` names them.
#[verifier::external_body]
pub(crate) fn parse_object(text: &str) -> (parsed: Result<Vec<(String, Value)>, serde_json::Error>)
    ensures
        match parsed {
            Ok(entries) => json_object(text@) == Some(fields_map(entries@)),
            Err(_) => json_object(text@) is None,
        },
{
    match serde_json::from_str::<BTreeMap<String, Value>>(text) {
        Ok(object) => Ok(object.into_iter().collect()),
        Err(error) => Err(error),
    }
}

/// Calls `serde_json::to_vec` on the entries, gathered into a map that is
/// ordered by field name.
///
/// Trusted: whether the call succeeds and which bytes it yields depend on the
/// fields alone, as `json_bytes` names them.
#[verifier::external_body]
pub(crate) fn serialize_object(entries: &Vec<(String, Value)>) -> (bytes: Result<
    Vec<u8>,
    serde_json::Error,
>)
    ensures
        match bytes {
            Ok(payload) => json_bytes(fields_map(entries@)) == Some(payload@),
            Err(_) => json_bytes(fields_map(entries@)) is None,
        },
{
    let object: BTreeMap<&str, &Value> = entries.iter().map(
        |entry| (entry.0.as_str(), &entry.1),
    ).collect();
    serde_json::to_vec(&object)
}

} // verus!
