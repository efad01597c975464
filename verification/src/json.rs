//! JSON documents. Reading one is `serde_json`'s work; what is said of a document here
//! is taken on trust from that crate.

use serde_json::Error as JsonError;
use serde_json::Value;
use vstd::prelude::*;

verus! {

/// `serde_json::Value`: opaque; `json_text` names what it holds.
#[verifier::external_type_specification]
#[verifier::external_body]
pub struct ExValue(Value);

/// What a JSON value holds, as the compact JSON text that `serde_json` writes for it.
pub uninterp spec fn json_text(v: Value) -> Seq<char>;

/// The value that `serde_json::from_str` reads from `text`, as its compact text, if it
/// reads one.
pub uninterp spec fn json_parsed(text: Seq<char>) -> Option<Seq<char>>;

/// The member that the JSON object with the compact text `doc` holds under `key`, as
/// its compact text; nothing where `doc` is no object or has no such member.
pub uninterp spec fn json_member(doc: Seq<char>, key: Seq<char>) -> Option<Seq<char>>;

/// Calls `serde_json::from_str` for a `Value`. The result depends on the text alone;
/// `json_parsed` is its name.
#[verifier::external_body]
pub(crate) fn parse_json(text: &str) -> (r: Result<Value, JsonError>)
    ensures
        match r {
            Ok(v) => json_parsed(text@) == Some(json_text(v)),
            Err(_) => json_parsed(text@) is None,
        },
{
    serde_json::from_str::<Value>(text)
}

/// Calls `Map::remove` on the members of an object, and gives nothing for a value that
/// is no object. The result depends on the document and the key alone; `json_member`
/// is its name.
#[verifier::external_body]
pub(crate) fn take_member(doc: Value, key: &str) -> (r: Option<Value>)
    ensures
        match r {
            Some(v) => json_member(json_text(doc), key@) == Some(json_text(v)),
            None => json_member(json_text(doc), key@) is None,
        },
{
    match doc {
        Value::Object(mut members) => members.remove(key),
        _ => None,
    }
}

/// Calls `serde::de::Error::missing_field` for `serde_json::Error`: the error that a
/// decoder gives for an object without a member that it needs.
#[verifier::external_body]
pub(crate) fn missing_member(key: &'static str) -> JsonError {
    serde::de::Error::missing_field(key)
}

} // verus!
