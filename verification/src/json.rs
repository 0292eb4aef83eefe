//! The boundary with `serde_json`.
//!
//! A JSON document is handled as a `serde_json::Value`, which the verifier
//! cannot look into. Uninterpreted functions say what such a value holds
//! and what a text parses to, and the few functions of `serde_json` that
//! the crate calls are given contracts over them. Nothing in this file is
//! proved: it records what those functions are trusted to do.

use vstd::prelude::*;

verus! {

/// `serde_json::Value`, taken as opaque.
#[verifier::external_type_specification]
#[verifier::external_body]
pub struct ExValue(serde_json::Value);

/// The text a JSON value holds, if it is a string.
pub uninterp spec fn json_text(value: serde_json::Value) -> Option<Seq<char>>;

/// The members of a JSON value by key, if it is an object; the empty map
/// for any other value.
pub uninterp spec fn json_members(value: serde_json::Value) -> Map<Seq<char>, serde_json::Value>;

/// The items of a JSON value in order, if it is an array.
pub uninterp spec fn json_items(value: serde_json::Value) -> Option<Seq<serde_json::Value>>;

/// The document a text parses to, if it is well-formed JSON.
pub uninterp spec fn json_document(text: Seq<char>) -> Option<serde_json::Value>;

/// Calls `serde_json::from_str` for a `Value`. The outcome depends on the
/// text alone, so it is named: a well-formed text gives its document, any
/// other text none. The parser's error is dropped, nothing reads it.
#[verifier::external_body]
pub(crate) fn parse(text: &str) -> (document: Option<serde_json::Value>)
    ensures
        document == json_document(text@),
{
    serde_json::from_str::<serde_json::Value>(text).ok()
}

/// `Value::clone`: the copy equals the value it was made from.
pub assume_specification[ <serde_json::Value as Clone>::clone ](
    value: &serde_json::Value,
) -> (copy: serde_json::Value)
    ensures
        copy == *value,
;

/// Calls `Value::get` with a string key: the member under that key when
/// the value is an object that has it.
#[verifier::external_body]
pub(crate) fn member<'a>(value: &'a serde_json::Value, key: &str) -> (found: Option<
    &'a serde_json::Value,
>)
    ensures
        match found {
            Some(inner) => json_members(*value).contains_key(key@) && json_members(*value)[key@]
                == *inner,
            None => !json_members(*value).contains_key(key@),
        },
{
    value.get(key)
}

/// Calls `Value::as_str`: the text of a string value.
#[verifier::external_body]
pub(crate) fn as_text<'a>(value: &'a serde_json::Value) -> (text: Option<&'a str>)
    ensures
        match text {
            Some(t) => json_text(*value) == Some(t@),
            None => json_text(*value) is None,
        },
{
    value.as_str()
}

/// Calls `Value::as_array`: the items of an array value.
#[verifier::external_body]
pub(crate) fn as_items<'a>(value: &'a serde_json::Value) -> (items: Option<
    &'a Vec<serde_json::Value>,
>)
    ensures
        match items {
            Some(list) => json_items(*value) == Some(list@),
            None => json_items(*value) is None,
        },
{
    value.as_array()
}

} // verus!
