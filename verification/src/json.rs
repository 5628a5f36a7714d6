//! Reading JSON documents through `serde_json`.
//!
//! A document is carried as a `serde_json::Value`, of which nothing is known
//! here but what the functions below say. Each of them calls one function of
//! `serde_json` and is believed, not proved: its result is named, as a
//! function of its arguments, and the names are what the readers of this
//! library state their results in.

use vstd::prelude::*;
use crate::text::spec_holds_text;

verus! {

/// `serde_json::Value`, a JSON document or a part of one. Nothing of what
/// is inside it is seen here.
#[verifier::external_type_specification]
#[verifier::external_body]
pub struct ExValue(serde_json::Value);

/// `serde_json::Error`, the reason why a text could not be read. It is
/// carried and dropped, never looked into.
#[verifier::external_type_specification]
#[verifier::external_body]
pub struct ExJsonError(serde_json::Error);

/// The document that `serde_json::from_str` reads from `text`; none where it
/// reports an error.
pub uninterp spec fn json_document(text: Seq<char>) -> Option<serde_json::Value>;

/// The member that `serde_json::Value::get` finds under `key`.
pub uninterp spec fn json_member(value: serde_json::Value, key: Seq<char>) -> Option<
    serde_json::Value,
>;

/// What `serde_json::Value::as_str` gives.
pub uninterp spec fn json_string(value: serde_json::Value) -> Option<Seq<char>>;

/// What `serde_json::Value::as_u64` gives.
pub uninterp spec fn json_u64(value: serde_json::Value) -> Option<u64>;

/// What `serde_json::Value::as_bool` gives.
pub uninterp spec fn json_bool(value: serde_json::Value) -> Option<bool>;

/// What `serde_json::Value::as_array` gives.
pub uninterp spec fn json_items(value: serde_json::Value) -> Option<Seq<serde_json::Value>>;

/// The text that `serde_json::Value` is displayed as.
pub uninterp spec fn json_text(value: serde_json::Value) -> Seq<char>;

/// Calls `serde_json::from_str` for a `Value`. Believed: the call depends on
/// `text` alone, so that its result can be named `json_document(text)`.
#[verifier::external_body]
pub(crate) fn parse(text: &str) -> (r: Result<serde_json::Value, serde_json::Error>)
    ensures
        r matches Ok(value) ==> json_document(text@) == Some(value),
        r is Err ==> json_document(text@) is None,
{
    serde_json::from_str::<serde_json::Value>(text)
}

/// Calls `serde_json::Value::get` with a string key, which looks the key up
/// where the value is an object and finds nothing elsewhere. Believed: the
/// call depends on the value and the key alone, so that its result can be
/// named `json_member(value, key)`.
#[verifier::external_body]
pub(crate) fn member<'a>(value: &'a serde_json::Value, key: &str) -> (r: Option<
    &'a serde_json::Value,
>)
    ensures
        r matches Some(found) ==> json_member(*value, key@) == Some(*found),
        r is None ==> json_member(*value, key@) is None,
{
    value.get(key)
}

/// Calls `serde_json::Value::as_str`, which gives the text of a string and
/// nothing for any other value. Believed: the result is `json_string(value)`.
#[verifier::external_body]
pub(crate) fn string_of<'a>(value: &'a serde_json::Value) -> (r: Option<&'a str>)
    ensures
        r matches Some(text) ==> json_string(*value) == Some(text@),
        r is None ==> json_string(*value) is None,
{
    value.as_str()
}

/// Calls `serde_json::Value::as_u64`, which gives the number where the value
/// is an integer that fits in 64 bits without sign, and nothing elsewhere.
/// Believed: the result is `json_u64(value)`.
#[verifier::external_body]
pub(crate) fn u64_of(value: &serde_json::Value) -> (r: Option<u64>)
    ensures
        r == json_u64(*value),
{
    value.as_u64()
}

/// Calls `serde_json::Value::as_bool`, which gives the truth value of a
/// boolean and nothing for any other value. Believed: the result is
/// `json_bool(value)`.
#[verifier::external_body]
pub(crate) fn bool_of(value: &serde_json::Value) -> (r: Option<bool>)
    ensures
        r == json_bool(*value),
{
    value.as_bool()
}

/// Calls `serde_json::Value::as_array`, which gives the items of an array and
/// nothing for any other value. Believed: the result is `json_items(value)`.
#[verifier::external_body]
pub(crate) fn items_of<'a>(value: &'a serde_json::Value) -> (r: Option<&'a Vec<serde_json::Value>>)
    ensures
        r matches Some(items) ==> json_items(*value) == Some(items@),
        r is None ==> json_items(*value) is None,
{
    value.as_array()
}

/// Calls `to_string` on a `serde_json::Value`, which writes the value as
/// compact JSON. Believed: the result is `json_text(value)`.
#[verifier::external_body]
pub(crate) fn text_of(value: &serde_json::Value) -> (r: String)
    ensures
        r@ == json_text(*value),
{
    value.to_string()
}

/// The text of the member `key`, where the value has such a member and it is
/// a string.
pub open spec fn spec_member_string(value: serde_json::Value, key: Seq<char>) -> Option<Seq<char>> {
    match json_member(value, key) {
        Some(found) => json_string(found),
        None => None,
    }
}

/// The number under `key`, where the value has such a member and it is an
/// integer that fits in 64 bits without sign.
pub open spec fn spec_member_u64(value: serde_json::Value, key: Seq<char>) -> Option<u64> {
    match json_member(value, key) {
        Some(found) => json_u64(found),
        None => None,
    }
}

/// The truth value under `key`, where the value has such a member and it is a
/// boolean.
pub open spec fn spec_member_bool(value: serde_json::Value, key: Seq<char>) -> Option<bool> {
    match json_member(value, key) {
        Some(found) => json_bool(found),
        None => None,
    }
}

/// The items under `key`, where the value has such a member and it is an array.
pub open spec fn spec_member_items(value: serde_json::Value, key: Seq<char>) -> Option<
    Seq<serde_json::Value>,
> {
    match json_member(value, key) {
        Some(found) => json_items(found),
        None => None,
    }
}

/// The text of the member `key`.
pub(crate) fn member_string(value: &serde_json::Value, key: &str) -> (r: Option<String>)
    ensures
        spec_holds_text(r, spec_member_string(*value, key@)),
{
    match member(value, key) {
        Some(found) => match string_of(found) {
            Some(text) => Some(text.to_owned()),
            None => None,
        },
        None => None,
    }
}

/// The number under `key`.
pub(crate) fn member_u64(value: &serde_json::Value, key: &str) -> (r: Option<u64>)
    ensures
        r == spec_member_u64(*value, key@),
{
    match member(value, key) {
        Some(found) => u64_of(found),
        None => None,
    }
}

/// The truth value under `key`.
pub(crate) fn member_bool(value: &serde_json::Value, key: &str) -> (r: Option<bool>)
    ensures
        r == spec_member_bool(*value, key@),
{
    match member(value, key) {
        Some(found) => bool_of(found),
        None => None,
    }
}

/// The items under `key`.
pub(crate) fn member_items<'a>(value: &'a serde_json::Value, key: &str) -> (r: Option<
    &'a Vec<serde_json::Value>,
>)
    ensures
        r matches Some(items) ==> spec_member_items(*value, key@) == Some(items@),
        r is None ==> spec_member_items(*value, key@) is None,
{
    match member(value, key) {
        Some(found) => items_of(found),
        None => None,
    }
}

} // verus!
