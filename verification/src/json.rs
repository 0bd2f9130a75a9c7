//! Reading a JSON document, through `serde_json`.
//!
//! The parser is not verified. What is assumed of it is written down here:
//! a document either parses or does not, and a parsed document has members.

use vstd::prelude::*;

verus! {

#[verifier::external_type_specification]
#[verifier::external_body]
pub struct ExValue(serde_json::Value);

/// The members of a JSON value: for an object, its keys, each with what it
/// holds, as a text: a JSON string stands for itself, character by
/// character, and anything else for its compact JSON text. Any other value
/// has no members.
pub uninterp spec fn json_members(value: serde_json::Value) -> Map<Seq<char>, Seq<char>>;

/// The members of the value that a text parses to as one JSON document, or
/// `None` for a text that is no JSON document.
pub uninterp spec fn json_document(text: Seq<char>) -> Option<Map<Seq<char>, Seq<char>>>;

/// Calls `serde_json::from_str` for a `serde_json::Value`. Whether a text
/// parses, and to which members, depends on the text alone; a text that
/// does not parse gives `None`.
#[verifier::external_body]
pub(crate) fn parse_document(text: &str) -> (value: Option<serde_json::Value>)
    ensures
        value is Some <==> json_document(text@) is Some,
        value matches Some(parsed) ==> json_members(parsed) == json_document(text@)->0,
{
    serde_json::from_str::<serde_json::Value>(text).ok()
}

/// Calls `serde_json::Value::get` with a string key and hands the member
/// it finds out as a text: the contents of a `Value::String`, and for any
/// other variant what the value's `Display` renders, which is its compact
/// JSON text. `None` where the value is no object or has no such key.
#[verifier::external_body]
pub(crate) fn member(value: &serde_json::Value, key: &str) -> (text: Option<String>)
    ensures
        text is Some <==> json_members(*value).contains_key(key@),
        text matches Some(found) ==> found@ == json_members(*value)[key@],
{
    value.get(key).map(|found| match found {
        serde_json::Value::String(text) => text.clone(),
        other => other.to_string(),
    })
}

} // verus!
