//! What the engine reads of a JSON document, through `serde_json`.

use crate::views::Text;
use serde_json::Value;
use vstd::prelude::*;

verus! {

/// `serde_json::Value`, a JSON value. The proofs see of it what `json_kind`
/// and `json_member` name.
#[verifier::external_type_specification]
#[verifier::external_body]
pub struct ExValue(Value);

/// What kind of JSON value one is, with what a boolean or a string holds.
pub enum JsonKind {
    Null,
    Bool(bool),
    Number,
    Str(Text),
    Array,
    Object,
}

/// The JSON value that `text` stands for, or `None` where `text` is no JSON
/// document.
pub uninterp spec fn json_parse(text: Seq<char>) -> Option<Value>;

/// The kind of the JSON value `v`.
pub uninterp spec fn json_kind(v: Value) -> JsonKind;

/// The member that the JSON object `v` holds under `key`, or `None` where it
/// holds none or `v` is no object.
pub uninterp spec fn json_member(v: Value, key: Seq<char>) -> Option<Value>;

/// `serde_json::from_str` at `Value`: the value that the text stands for.
/// An error, whatever its cause, comes back as `None`.
#[verifier::external_body]
pub(crate) fn parse_json(text: &str) -> (r: Option<Value>)
    ensures
        r == json_parse(text@),
{
    serde_json::from_str::<Value>(text).ok()
}

/// `Value::get` with a string index: the member of an object under that key,
/// `None` for a key the object lacks and for a value that is no object.
#[verifier::external_body]
pub(crate) fn member<'a>(v: &'a Value, key: &str) -> (r: Option<&'a Value>)
    ensures
        match r {
            Some(m) => json_member(*v, key@) == Some(*m),
            None => json_member(*v, key@) is None,
        },
{
    v.get(key)
}

/// `Value::as_bool`: what a boolean holds, `None` for any other value.
#[verifier::external_body]
pub(crate) fn as_bool(v: &Value) -> (r: Option<bool>)
    ensures
        r == (match json_kind(*v) {
            JsonKind::Bool(b) => Some(b),
            _ => None,
        }),
{
    v.as_bool()
}

/// `Value::is_null`: whether the value is JSON's null.
#[verifier::external_body]
pub(crate) fn is_null(v: &Value) -> (r: bool)
    ensures
        r == (json_kind(*v) is Null),
{
    v.is_null()
}

/// `Value::as_str`: what a string holds, `None` for any other value.
#[verifier::external_body]
pub(crate) fn as_str<'a>(v: &'a Value) -> (r: Option<&'a str>)
    ensures
        match r {
            Some(s) => json_kind(*v) == JsonKind::Str(s@),
            None => !(json_kind(*v) is Str),
        },
{
    v.as_str()
}

/// What the member of `v` under `key` holds if it is a boolean; `None` where
/// `v` has no such member or it is no boolean.
pub open spec fn bool_member(v: Value, key: Text) -> Option<bool> {
    match json_member(v, key) {
        Some(m) => match json_kind(m) {
            JsonKind::Bool(b) => Some(b),
            _ => None,
        },
        None => None,
    }
}

/// Reads the boolean that `v` holds under `key`.
pub fn get_bool(v: &Value, key: &str) -> (r: Option<bool>)
    ensures
        r == bool_member(*v, key@),
{
    match member(v, key) {
        Some(m) => as_bool(m),
        None => None,
    }
}

} // verus!
