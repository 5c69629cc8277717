//! JSON documents as `serde_json` holds them, and the calls into `serde_json`
//! that the codec is built on. Nothing in this file is proved: each function
//! makes one call and states what that call does.

use serde_json::Value;
use vstd::prelude::*;

verus! {

/// What a JSON document holds. Numbers are kept apart by the three forms in
/// which `serde_json` stores them; the protocol only ever uses `Uint`.
pub enum Json {
    Null,
    Bool(bool),
    /// A non-negative integer.
    Uint(u64),
    /// A negative integer.
    Negative(i64),
    /// Any other number, by the bits of its 64-bit representation.
    Real(u64),
    Str(Seq<char>),
    Arr(Seq<Json>),
    Obj(Map<Seq<char>, Json>),
}

/// `serde_json::Value`, a JSON document, as an opaque type.
#[verifier::external_type_specification]
#[verifier::external_body]
pub struct ExValue(serde_json::Value);

/// `serde_json::Map`, the members of a JSON object, as an opaque type.
#[verifier::external_type_specification]
#[verifier::external_body]
#[verifier::reject_recursive_types(K)]
#[verifier::reject_recursive_types(V)]
pub struct ExObject<K, V>(serde_json::Map<K, V>);

/// `serde_json::Error`, as an opaque type.
#[verifier::external_type_specification]
#[verifier::external_body]
pub struct ExJsonError(serde_json::Error);

/// The document that a `serde_json::Value` holds.
pub uninterp spec fn value_model(v: Value) -> Json;

/// The members that a `serde_json::Map` holds, by key.
pub uninterp spec fn object_model(m: serde_json::Map<String, Value>) -> Map<Seq<char>, Json>;

/// The compact text that `serde_json::to_string` prints for a document.
pub uninterp spec fn json_text(j: Json) -> Seq<char>;

/// The document that `serde_json::from_str` reads from a text, if it reads one.
pub uninterp spec fn json_parse(s: Seq<char>) -> Option<Json>;

/// The object without members.
pub open spec fn no_members() -> Map<Seq<char>, Json> {
    Map::empty()
}

/// That an object has exactly `n` members.
pub open spec fn has_size(members: Map<Seq<char>, Json>, n: usize) -> bool {
    members.dom().finite() && members.dom().len() == n
}

/// The models of the values of a vector, in order.
pub open spec fn models(vs: Seq<Value>) -> Seq<Json> {
    Seq::new(vs.len(), |i: int| value_model(vs[i]))
}

/// `Value::Null`: the value that holds JSON `null`.
#[verifier::external_body]
pub(crate) fn value_null() -> (v: Value)
    ensures
        value_model(v) == Json::Null,
{
    Value::Null
}

/// `Value::from(bool)`: the value that holds the given boolean.
#[verifier::external_body]
pub(crate) fn value_bool(b: bool) -> (v: Value)
    ensures
        value_model(v) == Json::Bool(b),
{
    Value::from(b)
}

/// `Value::from(u64)`: the value that holds the given non-negative integer.
#[verifier::external_body]
pub(crate) fn value_u64(n: u64) -> (v: Value)
    ensures
        value_model(v) == Json::Uint(n),
{
    Value::from(n)
}

/// `Value::from(&str)`: the value that holds a copy of the given string.
#[verifier::external_body]
pub(crate) fn value_str(s: &str) -> (v: Value)
    ensures
        value_model(v) == Json::Str(s@),
{
    Value::from(s)
}

/// `Value::from(Vec<Value>)`: the array of the given values, in their order.
#[verifier::external_body]
pub(crate) fn value_array(items: Vec<Value>) -> (v: Value)
    ensures
        value_model(v) == Json::Arr(models(items@)),
{
    Value::from(items)
}

/// `Value::from(Map<String, Value>)`: the object with the given members.
#[verifier::external_body]
pub(crate) fn value_object(members: serde_json::Map<String, Value>) -> (v: Value)
    ensures
        value_model(v) == Json::Obj(object_model(members)),
{
    Value::from(members)
}

/// `Map::new`: an object without members.
#[verifier::external_body]
pub(crate) fn object_new() -> (m: serde_json::Map<String, Value>)
    ensures
        object_model(m) == no_members(),
{
    serde_json::Map::new()
}

/// `Map::insert`: sets the member under `key`, replacing one that was there,
/// and leaves the other members as they were.
#[verifier::external_body]
pub(crate) fn object_insert(m: &mut serde_json::Map<String, Value>, key: &str, v: Value)
    ensures
        object_model(*final(m)) == object_model(*old(m)).insert(key@, value_model(v)),
{
    m.insert(key.to_owned(), v);
}

/// `Map::get`: the member under `key`, or `None` where the object has none.
#[verifier::external_body]
pub(crate) fn object_get<'a>(m: &'a serde_json::Map<String, Value>, key: &str) -> (r: Option<&'a Value>)
    ensures
        match r {
            Some(v) => object_model(*m).dom().contains(key@) && object_model(*m)[key@]
                == value_model(*v),
            None => !object_model(*m).dom().contains(key@),
        },
{
    m.get(key)
}

/// `Map::len`: the number of members, which is finite.
#[verifier::external_body]
pub(crate) fn object_len(m: &serde_json::Map<String, Value>) -> (count: usize)
    ensures
        has_size(object_model(*m), count),
{
    m.len()
}

/// `Value::is_null`: whether the value holds JSON `null`.
#[verifier::external_body]
pub(crate) fn value_is_null(v: &Value) -> (b: bool)
    ensures
        b == (value_model(*v) == Json::Null),
{
    v.is_null()
}

/// `Value::as_bool`: the boolean that the value holds, if it holds one.
#[verifier::external_body]
pub(crate) fn value_as_bool(v: &Value) -> (r: Option<bool>)
    ensures
        match r {
            Some(b) => value_model(*v) == Json::Bool(b),
            None => !(value_model(*v) is Bool),
        },
{
    v.as_bool()
}

/// `Value::as_u64`: the number that the value holds, if it holds a
/// non-negative integer.
#[verifier::external_body]
pub(crate) fn value_as_u64(v: &Value) -> (r: Option<u64>)
    ensures
        match r {
            Some(n) => value_model(*v) == Json::Uint(n),
            None => !(value_model(*v) is Uint),
        },
{
    v.as_u64()
}

/// `Value::as_str`: the string that the value holds, if it holds one.
#[verifier::external_body]
pub(crate) fn value_as_str(v: &Value) -> (r: Option<&str>)
    ensures
        match r {
            Some(s) => value_model(*v) == Json::Str(s@),
            None => !(value_model(*v) is Str),
        },
{
    v.as_str()
}

/// `Value::as_array`: the elements of the value, if it holds an array.
#[verifier::external_body]
pub(crate) fn value_as_array(v: &Value) -> (r: Option<&Vec<Value>>)
    ensures
        match r {
            Some(items) => value_model(*v) == Json::Arr(models(items@)),
            None => !(value_model(*v) is Arr),
        },
{
    v.as_array()
}

/// `Value::as_object`: the members of the value, if it holds an object.
#[verifier::external_body]
pub(crate) fn value_as_object(v: &Value) -> (r: Option<&serde_json::Map<String, Value>>)
    ensures
        match r {
            Some(m) => value_model(*v) == Json::Obj(object_model(*m)),
            None => !(value_model(*v) is Obj),
        },
{
    v.as_object()
}

/// `serde_json::to_string` on a `Value`: the compact text of the document.
/// Printing a `Value` into a string has no failing case, and the compact form
/// holds no line break: inside strings it is written as an escape.
#[verifier::external_body]
pub(crate) fn value_to_text(v: &Value) -> (r: Result<String, serde_json::Error>)
    ensures
        match r {
            Ok(s) => s@ == json_text(value_model(*v)) && !s@.contains('\n'),
            Err(_) => false,
        },
{
    serde_json::to_string(v)
}

/// `serde_json::from_str` for a `Value`: the document that the text holds, or
/// an error where the text is no single JSON document.
#[verifier::external_body]
pub(crate) fn value_from_text(s: &str) -> (r: Result<Value, serde_json::Error>)
    ensures
        match r {
            Ok(v) => json_parse(s@) == Some(value_model(v)),
            Err(_) => json_parse(s@) is None,
        },
{
    serde_json::from_str::<Value>(s)
}

} // verus!
