//! JSON documents, read through `serde_json`.
//!
//! A parsed document is a `serde_json::Value`. Nothing in this crate looks
//! inside one directly: the functions of `serde_json` below do, and what
//! each of them returns has a name here, so that the rest of the crate can
//! say which shape of document it accepts. The contracts of the items in the
//! first part of this file are taken on trust; those of the second part are
//! proved from them.

use vstd::prelude::*;
use serde_json::Value;

verus! {

/// A parsed JSON document or a part of one; opaque to the verifier.
#[verifier::external_type_specification]
#[verifier::external_body]
pub struct ExValue(serde_json::Value);

/// The document that a text is parsed into by `serde_json::from_str`, or
/// `None` where the text is not one JSON value.
pub uninterp spec fn json_document(text: Seq<char>) -> Option<Value>;

/// The elements of a JSON array in order, as `Value::as_array` gives them;
/// `None` for anything but an array.
pub uninterp spec fn json_items(value: Value) -> Option<Seq<Value>>;

/// The member of a JSON object under a key, as `Value::get` gives it; `None`
/// where the value is no object or has no such member.
pub uninterp spec fn json_member(value: Value, key: Seq<char>) -> Option<Value>;

/// The member values of a JSON object, in the order in which
/// `serde_json::Map::values` walks them; `None` for anything but an object.
pub uninterp spec fn json_member_values(value: Value) -> Option<Seq<Value>>;

/// The text of a JSON string, as `Value::as_str` gives it; `None` for
/// anything but a string.
pub uninterp spec fn json_text(value: Value) -> Option<Seq<char>>;

/// The number that `Value::as_u64` gives: that of a JSON number which is a
/// whole number from 0 to `u64::MAX`; `None` for anything else.
pub uninterp spec fn json_unsigned(value: Value) -> Option<u64>;

/// The truth value of a JSON boolean, as `Value::as_bool` gives it; `None`
/// for anything but `true` or `false`.
pub uninterp spec fn json_flag(value: Value) -> Option<bool>;

/// `serde_json::from_str` at the type `Value`: the parsed document, or `None`
/// where the parser reports an error. The result is a function of the text.
#[verifier::external_body]
pub(crate) fn parse_document(text: &str) -> (document: Option<Value>)
    ensures
        document == json_document(text@),
{
    serde_json::from_str::<Value>(text).ok()
}

/// `Value::get` with a string key: the member of an object under that key.
/// The result is a function of the value and the key.
#[verifier::external_body]
pub(crate) fn member<'a>(value: &'a Value, key: &str) -> (found: Option<&'a Value>)
    ensures
        match found {
            Some(inner) => json_member(*value, key@) == Some(*inner),
            None => json_member(*value, key@) is None,
        },
{
    value.get(key)
}

/// `Value::as_object` followed by `Map::values`: the member values of an
/// object, in the map's own order.
#[verifier::external_body]
pub(crate) fn member_values<'a>(value: &'a Value) -> (found: Option<Vec<&'a Value>>)
    ensures
        match found {
            Some(values) => json_member_values(*value) == Some(
                values@.map_values(|inner: &Value| *inner),
            ),
            None => json_member_values(*value) is None,
        },
{
    match value.as_object() {
        Some(object) => Some(object.values().collect()),
        None => None,
    }
}

/// `Value::as_array`: the elements of an array.
pub assume_specification[ serde_json::Value::as_array ](value: &Value) -> (found: Option<
    &Vec<Value>,
>)
    ensures
        match found {
            Some(items) => json_items(*value) == Some(items@),
            None => json_items(*value) is None,
        },
;

/// `Value::as_str`: the text of a string.
pub assume_specification[ serde_json::Value::as_str ](value: &Value) -> (found: Option<&str>)
    ensures
        match found {
            Some(text) => json_text(*value) == Some(text@),
            None => json_text(*value) is None,
        },
;

/// `Value::as_u64`: the number, where the value is a whole number that fits.
pub assume_specification[ serde_json::Value::as_u64 ](value: &Value) -> (found: Option<u64>)
    ensures
        found == json_unsigned(*value),
;

/// `Value::as_bool`: the truth value of a boolean.
pub assume_specification[ serde_json::Value::as_bool ](value: &Value) -> (found: Option<bool>)
    ensures
        found == json_flag(*value),
;

/// The text of the string member `key` of an object.
pub open spec fn text_field(value: Value, key: Seq<char>) -> Option<Seq<char>> {
    match json_member(value, key) {
        Some(inner) => json_text(inner),
        None => None,
    }
}

/// The number of the member `key` of an object, where it is a whole number
/// from 0 to `u64::MAX`.
pub open spec fn unsigned_field(value: Value, key: Seq<char>) -> Option<u64> {
    match json_member(value, key) {
        Some(inner) => json_unsigned(inner),
        None => None,
    }
}

/// The truth value of the boolean member `key` of an object.
pub open spec fn flag_field(value: Value, key: Seq<char>) -> Option<bool> {
    match json_member(value, key) {
        Some(inner) => json_flag(inner),
        None => None,
    }
}

/// Reads the string member `key` of an object.
pub fn read_text(value: &Value, key: &str) -> (found: Option<String>)
    ensures
        match found {
            Some(text) => text_field(*value, key@) == Some(text@),
            None => text_field(*value, key@) is None,
        },
{
    match member(value, key) {
        Some(inner) => match inner.as_str() {
            Some(text) => Some(text.to_owned()),
            None => None,
        },
        None => None,
    }
}

/// Reads the whole-number member `key` of an object.
pub fn read_unsigned(value: &Value, key: &str) -> (found: Option<u64>)
    ensures
        found == unsigned_field(*value, key@),
{
    match member(value, key) {
        Some(inner) => inner.as_u64(),
        None => None,
    }
}

/// Reads the boolean member `key` of an object.
pub fn read_flag(value: &Value, key: &str) -> (found: Option<bool>)
    ensures
        found == flag_field(*value, key@),
{
    match member(value, key) {
        Some(inner) => inner.as_bool(),
        None => None,
    }
}

} // verus!
