//! The few questions this crate asks of a JSON document.
//!
//! Parsing and navigation are left to `serde_json`. Its `Value` stays opaque
//! to the verifier; what a value holds is spoken of through the uninterpreted
//! functions below, and each wrapper promises no more than that its result is
//! the one so named.

use serde_json::{Error, Value};
use vstd::prelude::*;

verus! {

#[verifier::external_type_specification]
#[verifier::external_body]
pub struct ExValue(Value);

#[verifier::external_type_specification]
#[verifier::external_body]
pub struct ExError(Error);

/// The document that `serde_json::from_str` reads from a text, if it reads
/// one.
pub uninterp spec fn json_document(text: Seq<char>) -> Option<Value>;

/// The member that `Value::get` finds under a string key, if the value is an
/// object that has the key.
pub uninterp spec fn json_member(value: Value, key: Seq<char>) -> Option<Value>;

/// The text that `Value::as_str` gives, if the value is a string.
pub uninterp spec fn json_text(value: Value) -> Option<Seq<char>>;

/// The items that `Value::as_array` gives, if the value is an array.
pub uninterp spec fn json_items(value: Value) -> Option<Seq<Value>>;

/// Trusted: `serde_json::from_str` at type `Value`. The contract names the
/// document read and says that an error is returned exactly when none is.
#[verifier::external_body]
pub(crate) fn parse_document(text: &str) -> (parsed: Result<Value, Error>)
    ensures
        match parsed {
            Ok(document) => json_document(text@) == Some(document),
            Err(_) => json_document(text@) is None,
        },
{
    serde_json::from_str::<Value>(text)
}

/// Trusted: `Value::get` with a string key. The contract names the member
/// found and says that nothing is returned exactly when there is none.
#[verifier::external_body]
pub(crate) fn member<'a>(value: &'a Value, key: &str) -> (found: Option<&'a Value>)
    ensures
        match found {
            Some(inner) => json_member(*value, key@) == Some(*inner),
            None => json_member(*value, key@) is None,
        },
{
    value.get(key)
}

/// Trusted: `Value::as_str`, with the borrowed text copied into a `String`.
/// The contract names the text held and says that nothing is returned
/// exactly when the value is not a string.
#[verifier::external_body]
pub(crate) fn text_of(value: &Value) -> (text: Option<String>)
    ensures
        match text {
            Some(held) => json_text(*value) == Some(held@),
            None => json_text(*value) is None,
        },
{
    value.as_str().map(String::from)
}

/// Trusted: `Value::as_array`. The contract names the items held and says
/// that nothing is returned exactly when the value is not an array.
#[verifier::external_body]
pub(crate) fn items_of(value: &Value) -> (items: Option<&Vec<Value>>)
    ensures
        match items {
            Some(held) => json_items(*value) == Some(held@),
            None => json_items(*value) is None,
        },
{
    value.as_array()
}

/// The text held under `key`, when the member exists and is a string.
pub open spec fn text_member(value: Value, key: Seq<char>) -> Option<Seq<char>> {
    match json_member(value, key) {
        Some(inner) => json_text(inner),
        None => None,
    }
}

/// Reads the text held under `key`.
pub(crate) fn get_text(value: &Value, key: &str) -> (text: Option<String>)
    ensures
        match text {
            Some(held) => text_member(*value, key@) == Some(held@),
            None => text_member(*value, key@) is None,
        },
{
    match member(value, key) {
        Some(inner) => text_of(inner),
        None => None,
    }
}

} // verus!
