//! The JSON values that replies hold, read through `serde_json`.
use vstd::prelude::*;

verus! {

/// `serde_json::Value`, carried unopened inside `JsonDoc`.
#[verifier::external_type_specification]
#[verifier::external_body]
pub struct ExJsonValue(serde_json::Value);

/// Whether `serde_json` parses `text` as one JSON value.
pub uninterp spec fn json_parses(text: Seq<char>) -> bool;

/// The member `key` of the JSON value in `text`, when it is a boolean.
pub uninterp spec fn json_member_bool(text: Seq<char>, key: Seq<char>) -> Option<bool>;

/// The member `key` of the JSON value in `text`, when it is a string.
pub uninterp spec fn json_member_str(text: Seq<char>, key: Seq<char>) -> Option<Seq<char>>;

/// The member `key` of the JSON value in `text`, written out as compact JSON.
pub uninterp spec fn json_member_json(text: Seq<char>, key: Seq<char>) -> Option<Seq<char>>;

/// A parsed JSON value, kept together with the text that it was parsed from.
pub struct JsonDoc {
    text: String,
    value: serde_json::Value,
}

impl JsonDoc {
    /// The text that the value was parsed from.
    pub closed spec fn source(&self) -> Seq<char> {
        self.text@
    }
}

/// Relies on `serde_json::from_str::<serde_json::Value>`: whether it accepts the text
/// depends on the text alone. Its error value is dropped: only its presence is used.
#[verifier::external_body]
pub(crate) fn parse_json(text: &str) -> (r: Option<JsonDoc>)
    ensures
        r is Some <==> json_parses(text@),
        r matches Some(d) ==> d.source() == text@,
{
    match serde_json::from_str::<serde_json::Value>(text) {
        Ok(value) => Some(JsonDoc { text: text.to_string(), value }),
        Err(_) => None,
    }
}

/// Relies on `serde_json::Value::get` and `Value::as_bool`: a boolean member of an object.
#[verifier::external_body]
pub(crate) fn member_bool(doc: &JsonDoc, key: &str) -> (r: Option<bool>)
    ensures
        r == json_member_bool(doc.source(), key@),
{
    doc.value.get(key).and_then(serde_json::Value::as_bool)
}

/// Relies on `serde_json::Value::get` and `Value::as_str`: a string member of an object.
#[verifier::external_body]
pub(crate) fn member_str(doc: &JsonDoc, key: &str) -> (r: Option<String>)
    ensures
        match r {
            Some(s) => json_member_str(doc.source(), key@) == Some(s@),
            None => json_member_str(doc.source(), key@) is None,
        },
{
    doc.value.get(key).and_then(serde_json::Value::as_str).map(String::from)
}

/// Relies on `serde_json::Value::get` and `serde_json::to_string`: a member of an object,
/// written out as compact JSON.
#[verifier::external_body]
pub(crate) fn member_json(doc: &JsonDoc, key: &str) -> (r: Option<String>)
    ensures
        match r {
            Some(s) => json_member_json(doc.source(), key@) == Some(s@),
            None => json_member_json(doc.source(), key@) is None,
        },
{
    match doc.value.get(key) {
        Some(v) => serde_json::to_string(v).ok(),
        None => None,
    }
}

} // verus!
