//! The JSON values that the helper sends.
use serde_json::Error as JsonError;
use vstd::prelude::*;

verus! {

/// A JSON value of `serde_json`.
#[verifier::external_type_specification]
#[verifier::external_body]
pub struct ExValue(serde_json::Value);

/// The error that `serde_json` reports.
#[verifier::external_type_specification]
#[verifier::external_body]
pub struct ExJsonError(JsonError);

/// What a JSON value is, one level deep.
pub enum Shape {
    /// `null`.
    Null,
    /// `true` or `false`.
    Bool(bool),
    /// An integer from zero up to `u64::MAX`.
    Unsigned(u64),
    /// Any other number.
    OtherNumber,
    /// A string.
    Text(Seq<char>),
    /// A list, with its elements in order.
    Array(Seq<serde_json::Value>),
    /// An object, with its members by key.
    Object(Map<Seq<char>, serde_json::Value>),
}

/// What the JSON value `v` holds.
pub uninterp spec fn shape(v: serde_json::Value) -> Shape;

/// The JSON value that `text` spells, where it spells one.
pub uninterp spec fn parsed_json(text: Seq<char>) -> Option<serde_json::Value>;

/// The member of `v` under `key`: none where `v` is no object or has no such member.
pub open spec fn member_of(v: serde_json::Value, key: Seq<char>) -> Option<serde_json::Value> {
    match shape(v) {
        Shape::Object(members) => if members.contains_key(key) {
            Some(members[key])
        } else {
            None
        },
        _ => None,
    }
}

/// The string that `v` is, if it is one.
pub open spec fn text_of(v: serde_json::Value) -> Option<Seq<char>> {
    match shape(v) {
        Shape::Text(text) => Some(text),
        _ => None,
    }
}

/// The string that the member of `v` under `key` is, if there is one.
pub open spec fn text_member(v: serde_json::Value, key: Seq<char>) -> Option<Seq<char>> {
    match member_of(v, key) {
        Some(member) => text_of(member),
        None => None,
    }
}

/// `serde_json::from_str` at `Value`: whether the text is one JSON document, and which value it
/// spells, depends on the text alone.
#[verifier::external_body]
pub(crate) fn read_json(text: &str) -> (r: Result<serde_json::Value, JsonError>)
    ensures
        match r {
            Ok(v) => parsed_json(text@) == Some(v),
            Err(_) => parsed_json(text@) is None,
        },
{
    serde_json::from_str(text)
}

/// `serde_json::Value::get` with a string key: the member of an object under that key, and nothing
/// where there is none or the value is no object.
#[verifier::external_body]
pub(crate) fn member<'a>(v: &'a serde_json::Value, key: &str) -> (r: Option<&'a serde_json::Value>)
    ensures
        match r {
            Some(found) => member_of(*v, key@) == Some(*found),
            None => member_of(*v, key@) is None,
        },
{
    v.get(key)
}

/// `serde_json::Value::is_object`: whether the value is an object.
pub assume_specification[ serde_json::Value::is_object ](v: &serde_json::Value) -> (r: bool)
    ensures
        r == (shape(*v) is Object),
;

/// `serde_json::Value::as_str`: the string that the value is, and nothing where it is none.
pub assume_specification[ serde_json::Value::as_str ](v: &serde_json::Value) -> (r: Option<&str>)
    ensures
        match r {
            Some(text) => shape(*v) == Shape::Text(text@),
            None => !(shape(*v) is Text),
        },
;

/// `serde_json::Value::as_bool`: the truth value that the value is, and nothing where it is none.
pub assume_specification[ serde_json::Value::as_bool ](v: &serde_json::Value) -> (r: Option<bool>)
    ensures
        match r {
            Some(truth) => shape(*v) == Shape::Bool(truth),
            None => !(shape(*v) is Bool),
        },
;

/// `serde_json::Value::as_u64`: the integer that the value is, and nothing where it is none or
/// lies outside `u64`.
pub assume_specification[ serde_json::Value::as_u64 ](v: &serde_json::Value) -> (r: Option<u64>)
    ensures
        match r {
            Some(n) => shape(*v) == Shape::Unsigned(n),
            None => !(shape(*v) is Unsigned),
        },
;

/// `Clone` of `serde_json::Value`: the copy is the same value.
pub assume_specification[ <serde_json::Value as Clone>::clone ](v: &serde_json::Value) -> (r:
    serde_json::Value)
    ensures
        r == *v,
;

/// The string member of `v` under `key`.
pub(crate) fn member_text(v: &serde_json::Value, key: &str) -> (r: Option<String>)
    ensures
        match r {
            Some(text) => text_member(*v, key@) == Some(text@),
            None => text_member(*v, key@) is None,
        },
{
    match member(v, key) {
        Some(found) => match found.as_str() {
            Some(text) => Some(text.to_string()),
            None => None,
        },
        None => None,
    }
}

} // verus!
