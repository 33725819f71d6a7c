//! JSON documents, as `serde_json` reads them.
//!
//! A document is kept as the `serde_json::Value` that the parser built.
//! The engine reads it through the functions below, whose contracts are
//! taken on trust from `serde_json`; what a value holds is named, not
//! spelled out.

use vstd::prelude::*;
use vstd::string::*;

verus! {

/// Makes `serde_json::Value` known as a type of which nothing is seen.
#[verifier::external_type_specification]
#[verifier::external_body]
pub struct ExValue(serde_json::Value);

/// The document that a text is parsed into, if the text is JSON.
pub uninterp spec fn json_document(text: Seq<char>) -> Option<serde_json::Value>;

/// The member of an object under a key; the null value where `value` is no
/// object or has no such member.
pub uninterp spec fn json_member(value: serde_json::Value, key: Seq<char>) -> serde_json::Value;

/// The text of a value, if the value is a string.
pub uninterp spec fn json_text(value: serde_json::Value) -> Option<Seq<char>>;

/// The number of a value, if the value is an integer that is not negative
/// and fits 64 bits.
pub uninterp spec fn json_number(value: serde_json::Value) -> Option<u64>;

/// The items of a value, if the value is an array.
pub uninterp spec fn json_items(value: serde_json::Value) -> Option<Seq<serde_json::Value>>;

/// `serde_json::from_str` for a `Value`: parses a text as one JSON
/// document. The parser reads nothing but the text, so the same text always
/// gives the same document; a text that is no JSON gives `None`.
#[verifier::external_body]
pub(crate) fn parse_json(text: &str) -> (document: Option<serde_json::Value>)
    ensures
        document == json_document(text@),
{
    serde_json::from_str::<serde_json::Value>(text).ok()
}

/// Indexing a `Value` by a string, `value[key]`: the member of an object
/// under `key`. `serde_json` hands out the null value, and does not panic,
/// where `value` is no object or has no such member.
#[verifier::external_body]
pub(crate) fn member<'a>(value: &'a serde_json::Value, key: &str) -> (found: &'a serde_json::Value)
    ensures
        *found == json_member(*value, key@),
{
    &value[key]
}

/// `Value::as_str`: the text of a string, and `None` for any other value.
#[verifier::external_body]
pub(crate) fn as_text<'a>(value: &'a serde_json::Value) -> (text: Option<&'a str>)
    ensures
        match text {
            Some(t) => json_text(*value) == Some(t@),
            None => json_text(*value) is None,
        },
{
    value.as_str()
}

/// `Value::as_u64`: the number of a value that is an integer from 0 to
/// `u64::MAX`, and `None` for any other value.
#[verifier::external_body]
pub(crate) fn as_number(value: &serde_json::Value) -> (number: Option<u64>)
    ensures
        number == json_number(*value),
{
    value.as_u64()
}

/// `Value::as_array`: the items of an array, in order, and `None` for any
/// other value.
#[verifier::external_body]
pub(crate) fn as_items<'a>(value: &'a serde_json::Value) -> (items: Option<&'a Vec<serde_json::Value>>)
    ensures
        match items {
            Some(v) => json_items(*value) == Some(v@),
            None => json_items(*value) is None,
        },
{
    value.as_array()
}

} // verus!
