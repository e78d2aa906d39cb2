//! The JSON documents that frames carry, as `serde_json` holds them.
//!
//! A document is opaque here. What it holds is named by the spec functions
//! below, and read through one small function per accessor of `serde_json`.
//! Nothing in this file is proved: each contract restates what `serde_json`
//! documents of the function called.

use vstd::prelude::*;

verus! {

#[verifier::external_type_specification]
#[verifier::external_body]
pub struct ExValue(serde_json::Value);

/// The document that a text parses to; `None` where the text is not one JSON document.
pub uninterp spec fn json_parse(text: Seq<char>) -> Option<serde_json::Value>;

/// The member that a document holds under a key; `None` where the document is
/// no object or has no such member.
pub uninterp spec fn json_member(v: serde_json::Value, key: Seq<char>) -> Option<
    serde_json::Value,
>;

/// The integer that a document is; `None` where it is no number, has a
/// fraction or an exponent, or does not fit 64 signed bits.
pub uninterp spec fn json_int(v: serde_json::Value) -> Option<i64>;

/// The characters that a document is; `None` where it is no string.
pub uninterp spec fn json_str(v: serde_json::Value) -> Option<Seq<char>>;

/// The elements that a document holds, in order; `None` where it is no array.
pub uninterp spec fn json_items(v: serde_json::Value) -> Option<Seq<serde_json::Value>>;

/// The JSON string literal for some characters, quotes and escapes included,
/// or the message of the failure to produce it.
pub uninterp spec fn json_quote(s: Seq<char>) -> Result<Seq<char>, Seq<char>>;

/// Calls `serde_json::from_str` for a `serde_json::Value`. The result is the
/// document that the text denotes; a text that is rejected gives `None`, and
/// the reason is not kept.
#[verifier::external_body]
pub(crate) fn parse(text: &str) -> (r: Option<serde_json::Value>)
    ensures
        r == json_parse(text@),
{
    match serde_json::from_str::<serde_json::Value>(text) {
        Ok(v) => Some(v),
        Err(_) => None,
    }
}

/// Calls `serde_json::Value::get` with a string index: the member of an
/// object under that key, borrowed from the document.
#[verifier::external_body]
pub(crate) fn member<'a>(v: &'a serde_json::Value, key: &str) -> (r: Option<
    &'a serde_json::Value,
>)
    ensures
        match r {
            Some(m) => json_member(*v, key@) == Some(*m),
            None => json_member(*v, key@) is None,
        },
{
    v.get(key)
}

/// Calls `serde_json::Value::as_i64`.
#[verifier::external_body]
pub(crate) fn int_of(v: &serde_json::Value) -> (r: Option<i64>)
    ensures
        r == json_int(*v),
{
    v.as_i64()
}

/// Calls `serde_json::Value::as_str` and copies the characters out.
#[verifier::external_body]
pub(crate) fn str_of(v: &serde_json::Value) -> (r: Option<String>)
    ensures
        match r {
            Some(s) => json_str(*v) == Some(s@),
            None => json_str(*v) is None,
        },
{
    match v.as_str() {
        Some(s) => Some(s.to_owned()),
        None => None,
    }
}

/// Calls `serde_json::Value::as_array`: the elements of an array, borrowed
/// from the document.
#[verifier::external_body]
pub(crate) fn items_of<'a>(v: &'a serde_json::Value) -> (r: Option<&'a Vec<serde_json::Value>>)
    ensures
        match r {
            Some(items) => json_items(*v) == Some(items@),
            None => json_items(*v) is None,
        },
{
    v.as_array()
}

/// Calls `Clone::clone` of `serde_json::Value`: a document equal to the given one.
#[verifier::external_body]
pub(crate) fn copy_of(v: &serde_json::Value) -> (r: serde_json::Value)
    ensures
        r == *v,
{
    v.clone()
}

/// Calls `serde_json::to_string` on a string slice: the JSON string literal
/// for it. A failure is handed on as its message.
#[verifier::external_body]
pub(crate) fn quote(s: &str) -> (r: Result<String, String>)
    ensures
        match r {
            Ok(t) => json_quote(s@) == Ok::<Seq<char>, Seq<char>>(t@),
            Err(e) => json_quote(s@) == Err::<Seq<char>, Seq<char>>(e@),
        },
{
    match serde_json::to_string(s) {
        Ok(t) => Ok(t),
        Err(e) => Err(e.to_string()),
    }
}

} // verus!
