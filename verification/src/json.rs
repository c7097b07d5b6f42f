//! JSON documents as the specifications see them, and the reads of a
//! parsed document that the library makes.
use vstd::prelude::*;

use crate::text::opt_chars;

verus! {

/// A JSON value: a number is seen through its value as a `u64`, when it
/// has one (a non-negative integer that fits); an object maps its keys to
/// their values.
pub enum JsonView {
    Null,
    Bool(bool),
    Number(Option<u64>),
    Text(Seq<char>),
    Array(Seq<JsonView>),
    Object(Map<Seq<char>, JsonView>),
}

#[verifier::external_type_specification]
#[verifier::external_body]
pub struct ExJsonValue(serde_json::Value);

/// The document `serde_json` parses a text into; `None` when the text is
/// not JSON.
pub uninterp spec fn json_of(text: Seq<char>) -> Option<JsonView>;

/// What a parsed JSON value holds.
pub uninterp spec fn json_view(v: serde_json::Value) -> JsonView;

/// The value of an object's field.
pub open spec fn field(v: JsonView, key: Seq<char>) -> Option<JsonView> {
    match v {
        JsonView::Object(m) => if m.contains_key(key) {
            Some(m[key])
        } else {
            None
        },
        _ => None,
    }
}

/// An array's element at `i`.
pub open spec fn item(v: JsonView, i: int) -> Option<JsonView> {
    match v {
        JsonView::Array(s) => if 0 <= i < s.len() {
            Some(s[i])
        } else {
            None
        },
        _ => None,
    }
}

/// The text of a string.
pub open spec fn text_of(v: JsonView) -> Option<Seq<char>> {
    match v {
        JsonView::Text(t) => Some(t),
        _ => None,
    }
}

/// A number's value as a `u64`.
pub open spec fn u64_of(v: JsonView) -> Option<u64> {
    match v {
        JsonView::Number(n) => n,
        _ => None,
    }
}

/// The elements of an array.
pub open spec fn items_of(v: JsonView) -> Option<Seq<JsonView>> {
    match v {
        JsonView::Array(s) => Some(s),
        _ => None,
    }
}

/// What an optional reference to a value holds.
pub open spec fn opt_json(o: Option<&serde_json::Value>) -> Option<JsonView> {
    match o {
        Some(v) => Some(json_view(*v)),
        None => None,
    }
}

/// `serde_json::from_str` into a `Value`: the document, named [`json_of`].
#[verifier::external_body]
pub(crate) fn parse_json(text: &str) -> (r: Option<serde_json::Value>)
    ensures
        match r {
            Some(v) => json_of(text@) == Some(json_view(v)),
            None => json_of(text@) is None,
        },
{
    serde_json::from_str::<serde_json::Value>(text).ok()
}

/// `Value::get` with a key: the field of an object; `None` for a missing
/// key or a value that is not an object.
#[verifier::external_body]
pub(crate) fn json_get<'a>(v: &'a serde_json::Value, key: &str) -> (r: Option<&'a serde_json::Value>)
    ensures
        opt_json(r) == field(json_view(*v), key@),
{
    v.get(key)
}

/// `Value::get` with an index: the element of an array; `None` out of
/// bounds or for a value that is not an array.
#[verifier::external_body]
pub(crate) fn json_item<'a>(v: &'a serde_json::Value, i: usize) -> (r: Option<&'a serde_json::Value>)
    ensures
        opt_json(r) == item(json_view(*v), i as int),
{
    v.get(i)
}

/// `Value::as_str`: the text of a string value.
#[verifier::external_body]
pub(crate) fn json_text(v: &serde_json::Value) -> (r: Option<String>)
    ensures
        opt_chars(r) == text_of(json_view(*v)),
{
    v.as_str().map(|s| s.to_string())
}

/// `Value::as_u64`: an integer value as a `u64`, when it fits.
#[verifier::external_body]
pub(crate) fn json_u64(v: &serde_json::Value) -> (r: Option<u64>)
    ensures
        r == u64_of(json_view(*v)),
{
    v.as_u64()
}

/// `Value::as_array`, taken by its length: the number of elements of an
/// array value.
#[verifier::external_body]
pub(crate) fn json_len(v: &serde_json::Value) -> (r: Option<usize>)
    ensures
        match items_of(json_view(*v)) {
            Some(s) => r matches Some(n) && n == s.len(),
            None => r is None,
        },
{
    v.as_array().map(|a| a.len())
}

/// The field `key` of an optional value.
pub open spec fn then_field(o: Option<JsonView>, key: Seq<char>) -> Option<JsonView> {
    match o {
        Some(v) => field(v, key),
        None => None,
    }
}

/// The text of an optional value.
pub open spec fn then_text(o: Option<JsonView>) -> Option<Seq<char>> {
    match o {
        Some(v) => text_of(v),
        None => None,
    }
}

/// The `u64` value of an optional value.
pub open spec fn then_u64(o: Option<JsonView>) -> Option<u64> {
    match o {
        Some(v) => u64_of(v),
        None => None,
    }
}

/// The elements of an optional value that is an array.
pub open spec fn then_items(o: Option<JsonView>) -> Option<Seq<JsonView>> {
    match o {
        Some(v) => items_of(v),
        None => None,
    }
}

/// The JSON-pointer step `0` from an optional value: an array's first
/// element, or an object's field named `0`.
pub open spec fn then_first(o: Option<JsonView>) -> Option<JsonView> {
    match o {
        Some(v) => match v {
            JsonView::Array(s) => if s.len() > 0 {
                Some(s[0])
            } else {
                None
            },
            _ => field(v, "0"@),
        },
        None => None,
    }
}

/// The field `key` of an optional value.
pub fn get_field<'a>(o: Option<&'a serde_json::Value>, key: &str) -> (r: Option<&'a serde_json::Value>)
    ensures
        opt_json(r) == then_field(opt_json(o), key@),
{
    match o {
        Some(v) => json_get(v, key),
        None => None,
    }
}

/// The text of an optional value.
pub fn get_text(o: Option<&serde_json::Value>) -> (r: Option<String>)
    ensures
        opt_chars(r) == then_text(opt_json(o)),
{
    match o {
        Some(v) => json_text(v),
        None => None,
    }
}

/// The `u64` value of an optional value.
pub fn get_u64(o: Option<&serde_json::Value>) -> (r: Option<u64>)
    ensures
        r == then_u64(opt_json(o)),
{
    match o {
        Some(v) => json_u64(v),
        None => None,
    }
}

/// The JSON-pointer step `0` (see [`then_first`]).
pub fn get_first<'a>(o: Option<&'a serde_json::Value>) -> (r: Option<&'a serde_json::Value>)
    ensures
        opt_json(r) == then_first(opt_json(o)),
{
    match o {
        Some(v) => match json_len(v) {
            Some(_) => json_item(v, 0),
            None => json_get(v, "0"),
        },
        None => None,
    }
}

} // verus!
