//! JSON values: their mathematical model, and the contracts under which this
//! crate builds and reads the values of `serde_json`.
//!
//! Everything in this module that is marked `external_body` is believed, not
//! proved. Each such item is one constructor or accessor of `serde_json`, and
//! its contract says what that item does in terms of [`value_json`],
//! [`object_fields`] and [`number_u64`].

use serde_json::{Number, Value};
use vstd::prelude::*;

verus! {

/// `serde_json::Value`. The verifier does not look inside; what a value
/// holds is [`value_json`].
#[verifier::external_type_specification]
#[verifier::external_body]
pub struct ExValue(serde_json::Value);

/// `serde_json::Number`. The verifier does not look inside; [`number_u64`]
/// says which unsigned integer it is, if any.
#[verifier::external_type_specification]
#[verifier::external_body]
pub struct ExNumber(serde_json::Number);

/// `serde_json::Map`. The verifier does not look inside; what a map holds is
/// [`object_fields`].
#[verifier::external_type_specification]
#[verifier::external_body]
#[verifier::reject_recursive_types(K)]
#[verifier::reject_recursive_types(V)]
pub struct ExObject<K, V>(serde_json::Map<K, V>);

/// The map behind a JSON object.
pub type Object = serde_json::Map<String, Value>;

/// The fields of a JSON object: a finite map from key to value.
pub type Fields = Map<Seq<char>, Json>;

/// A JSON number, as far as this crate reads it.
pub enum Num {
    /// An integer in `0 ..= u64::MAX`.
    Unsigned(u64),
    /// Any other number (negative or fractional), kept as it is.
    Other(Number),
}

/// A JSON value as a mathematical tree.
pub enum Json {
    Null,
    Bool(bool),
    Number(Num),
    Str(Seq<char>),
    Array(Seq<Json>),
    Object(Fields),
}

/// What a `serde_json::Value` holds.
pub uninterp spec fn value_json(v: Value) -> Json;

/// What a `serde_json::Map` holds.
pub uninterp spec fn object_fields(m: Object) -> Fields;

/// What `serde_json::Number::as_u64` returns for a number.
pub uninterp spec fn number_u64(n: Number) -> Option<u64>;

/// The model of a number: the unsigned integer it is, or else the number
/// itself.
pub open spec fn number_num(n: Number) -> Num {
    match number_u64(n) {
        Some(u) => Num::Unsigned(u),
        None => Num::Other(n),
    }
}

/// The models of a sequence of values, item by item.
pub open spec fn values_json(items: Seq<Value>) -> Seq<Json> {
    items.map_values(|v: Value| value_json(v))
}

/// The fields of the empty object.
pub open spec fn no_fields() -> Fields {
    Map::empty()
}

/// The value under `key`, unless the key is absent or holds `null`.
pub open spec fn field(m: Fields, key: Seq<char>) -> Option<Json> {
    if m.contains_key(key) && !(m[key] is Null) {
        Some(m[key])
    } else {
        None
    }
}

/// `Value::Bool`: the boolean `b` as a value.
#[verifier::external_body]
pub(crate) fn bool_value(b: bool) -> (v: Value)
    ensures
        value_json(v) == Json::Bool(b),
{
    Value::Bool(b)
}

/// `Value::String`: the string `s` as a value.
#[verifier::external_body]
pub(crate) fn string_value(s: String) -> (v: Value)
    ensures
        value_json(v) == Json::Str(s@),
{
    Value::String(s)
}

/// `Value::Number`: the number `n` as a value.
#[verifier::external_body]
pub(crate) fn number_value(n: Number) -> (v: Value)
    ensures
        value_json(v) == Json::Number(number_num(n)),
{
    Value::Number(n)
}

/// `Value::Array`: the array of `items`, in their order.
#[verifier::external_body]
pub(crate) fn array_value(items: Vec<Value>) -> (v: Value)
    ensures
        value_json(v) == Json::Array(values_json(items@)),
{
    Value::Array(items)
}

/// `Value::Object`: the object whose fields are those of `m`.
#[verifier::external_body]
pub(crate) fn object_value(m: Object) -> (v: Value)
    ensures
        value_json(v) == Json::Object(object_fields(m)),
{
    Value::Object(m)
}

/// `Map::new`: a map without entries.
#[verifier::external_body]
pub(crate) fn new_object() -> (m: Object)
    ensures
        object_fields(m) == no_fields(),
{
    serde_json::Map::new()
}

/// `Map::insert`: afterwards `key` holds `v`, whether or not the key was
/// there before, and every other key holds what it held.
#[verifier::external_body]
pub(crate) fn object_insert(m: &mut Object, key: String, v: Value)
    ensures
        object_fields(*final(m)) == object_fields(*old(m)).insert(key@, value_json(v)),
{
    m.insert(key, v);
}

/// `Map::get`: the value under `key`, or `None` where the map has no such
/// key.
#[verifier::external_body]
pub(crate) fn object_get<'a>(m: &'a Object, key: &str) -> (r: Option<&'a Value>)
    ensures
        match r {
            Some(v) => object_fields(*m).contains_key(key@)
                && value_json(*v) == object_fields(*m)[key@],
            None => !object_fields(*m).contains_key(key@),
        },
{
    m.get(key)
}

/// `Value::as_object`: the map of an object, `None` for any other value.
#[verifier::external_body]
pub(crate) fn as_object(v: &Value) -> (r: Option<&Object>)
    ensures
        match r {
            Some(m) => value_json(*v) == Json::Object(object_fields(*m)),
            None => !(value_json(*v) is Object),
        },
{
    v.as_object()
}

/// `Value::as_array`: the items of an array, `None` for any other value.
#[verifier::external_body]
pub(crate) fn as_array(v: &Value) -> (r: Option<&Vec<Value>>)
    ensures
        match r {
            Some(items) => value_json(*v) == Json::Array(values_json(items@)),
            None => !(value_json(*v) is Array),
        },
{
    v.as_array()
}

/// `Value::as_str`: the text of a string, `None` for any other value.
#[verifier::external_body]
pub(crate) fn as_text(v: &Value) -> (r: Option<&str>)
    ensures
        match r {
            Some(s) => value_json(*v) == Json::Str(s@),
            None => !(value_json(*v) is Str),
        },
{
    v.as_str()
}

/// `Value::as_bool`: the boolean, `None` for any other value.
#[verifier::external_body]
pub(crate) fn as_bool(v: &Value) -> (r: Option<bool>)
    ensures
        match r {
            Some(b) => value_json(*v) == Json::Bool(b),
            None => !(value_json(*v) is Bool),
        },
{
    v.as_bool()
}

/// `Value::as_number`: the number, `None` for any other value.
#[verifier::external_body]
pub(crate) fn as_number(v: &Value) -> (r: Option<&Number>)
    ensures
        match r {
            Some(n) => value_json(*v) == Json::Number(number_num(*n)),
            None => !(value_json(*v) is Number),
        },
{
    v.as_number()
}

/// `Value::is_null`: whether the value is `null`.
#[verifier::external_body]
pub(crate) fn is_null(v: &Value) -> (r: bool)
    ensures
        r == (value_json(*v) is Null),
{
    v.is_null()
}

/// `Number::from` for `u32`: the number that `as_u64` reads back as `n`.
#[verifier::external_body]
pub(crate) fn number_from_u32(n: u32) -> (r: Number)
    ensures
        number_u64(r) == Some(n as u64),
{
    Number::from(n)
}

/// `Number::as_u64`.
#[verifier::external_body]
pub(crate) fn number_as_u64(n: &Number) -> (r: Option<u64>)
    ensures
        r == number_u64(*n),
{
    n.as_u64()
}

/// `Clone::clone` of a number: the same number.
#[verifier::external_body]
pub(crate) fn clone_number(n: &Number) -> (r: Number)
    ensures
        r == *n,
{
    n.clone()
}

/// `Clone::clone` of a value: a value that holds the same.
#[verifier::external_body]
pub(crate) fn clone_value(v: &Value) -> (r: Value)
    ensures
        value_json(r) == value_json(*v),
{
    v.clone()
}

} // verus!
