//! What the library reads of a JSON document, and the calls into `serde_json`
//! that read it.

use vstd::prelude::*;

verus! {

#[verifier::external_type_specification]
#[verifier::external_body]
pub struct ExJsonValue(serde_json::Value);

#[verifier::external_type_specification]
#[verifier::external_body]
pub struct ExJsonError(serde_json::Error);

/// The shape of a JSON value as far as this library reads it.
pub enum JsonTree {
    Null,
    Bool(bool),
    /// A number, with its value where it is an integer in `0..=u64::MAX`.
    Number(Option<u64>),
    Str(Seq<char>),
    Array(Seq<JsonTree>),
    Object(Map<Seq<char>, JsonTree>),
}

/// What a `serde_json::Value` holds.
pub uninterp spec fn json_tree(v: serde_json::Value) -> JsonTree;

/// The document that `serde_json::from_slice` reads from these bytes, if it
/// reads one (they are JSON text, not nested too deeply).
pub uninterp spec fn json_document(bytes: Seq<u8>) -> Option<JsonTree>;

/// Relies on `serde_json::from_slice` into a `Value`: whether it reads a
/// document, and which, depends on the bytes alone.
#[verifier::external_body]
pub(crate) fn parse_json(bytes: &[u8]) -> (r: Result<serde_json::Value, serde_json::Error>)
    ensures
        r is Ok <==> json_document(bytes@) is Some,
        r matches Ok(v) ==> json_document(bytes@) == Some(json_tree(v)),
{
    serde_json::from_slice(bytes)
}

/// Relies on `serde_json::Value::get` with a `&str` key: the member of an
/// object under that key, `None` for a missing key or a value of another kind.
#[verifier::external_body]
pub(crate) fn member<'a>(v: &'a serde_json::Value, key: &str) -> (r: Option<&'a serde_json::Value>)
    ensures
        match json_tree(*v) {
            JsonTree::Object(m) => {
                &&& r is Some <==> m.contains_key(key@)
                &&& r matches Some(x) ==> json_tree(*x) == m[key@]
            },
            _ => r is None,
        },
{
    v.get(key)
}

/// Relies on `serde_json::Value::as_str`: the text of a string value.
pub assume_specification[ serde_json::Value::as_str ](v: &serde_json::Value) -> (r: Option<&str>)
    ensures
        match json_tree(*v) {
            JsonTree::Str(s) => r matches Some(t) && t@ == s,
            _ => r is None,
        },
;

/// Relies on `serde_json::Value::as_u64`: a number's value where it is an
/// integer that fits `u64` (`Number::as_u64`).
pub assume_specification[ serde_json::Value::as_u64 ](v: &serde_json::Value) -> (r: Option<u64>)
    ensures
        match json_tree(*v) {
            JsonTree::Number(n) => r == n,
            _ => r is None,
        },
;

/// Relies on `serde_json::Value::as_array`: the items of an array value.
pub assume_specification[ serde_json::Value::as_array ](v: &serde_json::Value) -> (r: Option<&Vec<serde_json::Value>>)
    ensures
        match json_tree(*v) {
            JsonTree::Array(items) => r matches Some(a) && a@.len() == items.len() && forall|i: int|
                0 <= i < items.len() ==> json_tree(#[trigger] a@[i]) == items[i],
            _ => r is None,
        },
;

/// Relies on `serde_json::Value::is_null`: whether the value is `null`.
pub assume_specification[ serde_json::Value::is_null ](v: &serde_json::Value) -> (r: bool)
    ensures
        r == (json_tree(*v) is Null),
;

} // verus!
