//! The JSON values that requests and replies are made of.
//!
//! Values are held by `serde_json`, which also reads them from text. To the
//! verifier a `serde_json::Value` is opaque; what it holds is described by
//! the mathematical tree [`Json`], and every contract in this module relates
//! a call into `serde_json` to that tree. Nothing here is proved: each item
//! states what the `serde_json` source shows.

use serde_json::Value;
use vstd::prelude::*;

verus! {

/// A JSON value held by `serde_json`.
#[verifier::external_type_specification]
#[verifier::external_body]
pub struct ExValue(serde_json::Value);

/// What a JSON value is, as a mathematical tree.
///
/// A number that `serde_json` holds as an integer (anything from `i64::MIN`
/// to `u64::MAX`) is an `Int`; a number that it holds as a float is a `Real`,
/// which stands for the float by its IEEE 754 bits.
pub ghost enum Json {
    Null,
    Bool(bool),
    Int(int),
    Real(u64),
    String(Seq<char>),
    Array(Seq<Json>),
    Object(Map<Seq<char>, Json>),
}

/// The tree that a `serde_json::Value` holds.
pub uninterp spec fn json_of(v: Value) -> Json;

/// The tree that `serde_json::from_slice` reads from a text, or `None` for a
/// text that it rejects.
pub uninterp spec fn json_parsed(text: Seq<u8>) -> Option<Json>;

/// The tree that a value holds, if there is a value.
pub open spec fn json_if_any(value: Option<Value>) -> Option<Json> {
    match value {
        Some(value) => Some(json_of(value)),
        None => None,
    }
}

/// The trees of a sequence of values, one by one.
pub open spec fn jsons_of(items: Seq<Value>) -> Seq<Json> {
    items.map_values(|v: Value| json_of(v))
}

/// Whether no two of the fields share a name.
pub open spec fn distinct_names(fields: Seq<(String, Value)>) -> bool {
    forall|i: int, j: int|
        0 <= i < j < fields.len() ==> (#[trigger] fields[i]).0@ != (#[trigger] fields[j]).0@
}

/// The members of an object to which the fields are added in order.
pub open spec fn members_of(fields: Seq<(String, Value)>) -> Map<Seq<char>, Json>
    decreases fields.len(),
{
    if fields.len() == 0 {
        Map::empty()
    } else {
        members_of(fields.drop_last()).insert(fields.last().0@, json_of(fields.last().1))
    }
}

/// `serde_json::from_slice`, reading one `Value`: the result is `Some`
/// exactly for a text that `serde_json` accepts, and the same text always
/// gives the same tree. What `serde_json` says of a text that it rejects is
/// dropped.
#[verifier::external_body]
pub(crate) fn parse(text: &[u8]) -> (r: Option<Value>)
    ensures
        json_if_any(r) == json_parsed(text@),
{
    serde_json::from_slice::<Value>(text).ok()
}

/// `serde_json::Value::is_object`: whether the value is an object.
pub assume_specification[ serde_json::Value::is_object ](v: &Value) -> (r: bool)
    ensures
        r == (json_of(*v) is Object),
;

/// `serde_json::Value::is_null`: whether the value is `null`.
pub assume_specification[ serde_json::Value::is_null ](v: &Value) -> (r: bool)
    ensures
        r == (json_of(*v) is Null),
;

/// `serde_json::Value::as_str`: the text of a string, and `None` for any
/// other value.
pub assume_specification<'a>[ serde_json::Value::as_str ](v: &'a Value) -> (r: Option<&'a str>)
    ensures
        match json_of(*v) {
            Json::String(s) => r matches Some(t) && t@ == s,
            _ => r is None,
        },
;

/// `serde_json::Value::as_i64`: the number, where the value is an integer
/// that fits an `i64`, and `None` for any other value.
pub assume_specification[ serde_json::Value::as_i64 ](v: &Value) -> (r: Option<i64>)
    ensures
        match json_of(*v) {
            Json::Int(n) if i64::MIN <= n <= i64::MAX => r == Some(n as i64),
            _ => r is None,
        },
;

/// `serde_json::Value::as_array`: the elements of an array, in order, and
/// `None` for any other value.
pub assume_specification<'a>[ serde_json::Value::as_array ](v: &'a Value) -> (r: Option<
    &'a Vec<Value>,
>)
    ensures
        match json_of(*v) {
            Json::Array(items) => r matches Some(elements) && jsons_of(elements@) == items,
            _ => r is None,
        },
;

/// `Clone::clone` of `serde_json::Value`: a value that holds the same tree.
pub assume_specification[ <serde_json::Value as Clone>::clone ](v: &Value) -> (r: Value)
    ensures
        json_of(r) == json_of(*v),
;

/// `serde_json::Value::get` with a string index: the member of that name,
/// where the value is an object that has one, and `None` otherwise.
#[verifier::external_body]
pub(crate) fn member<'a>(v: &'a Value, name: &str) -> (r: Option<&'a Value>)
    ensures
        match json_of(*v) {
            Json::Object(members) if members.contains_key(name@) => r matches Some(found)
                && json_of(*found) == members[name@],
            _ => r is None,
        },
{
    v.get(name)
}

/// `serde_json::Value::Null`: the value `null`.
#[verifier::external_body]
pub(crate) fn null() -> (r: Value)
    ensures
        json_of(r) == Json::Null,
{
    Value::Null
}

/// `serde_json::Value::from` on an `i64`: the number, held as an integer.
#[verifier::external_body]
pub(crate) fn integer(n: i64) -> (r: Value)
    ensures
        json_of(r) == Json::Int(n as int),
{
    Value::from(n)
}

/// `serde_json::Value::from` on a `&str`: a string with that text.
#[verifier::external_body]
pub(crate) fn string(text: &str) -> (r: Value)
    ensures
        json_of(r) == Json::String(text@),
{
    Value::from(text)
}

/// `serde_json::Value::Array`: an array of the given elements, in order.
#[verifier::external_body]
pub(crate) fn array(items: Vec<Value>) -> (r: Value)
    ensures
        json_of(r) == Json::Array(jsons_of(items@)),
{
    Value::Array(items)
}

/// `serde_json::Value::Object` on a `serde_json::Map` collected from the
/// fields: an object with exactly these members. The names are distinct, so
/// that no field replaces another.
#[verifier::external_body]
pub(crate) fn object(fields: Vec<(String, Value)>) -> (r: Value)
    requires
        distinct_names(fields@),
    ensures
        json_of(r) == Json::Object(members_of(fields@)),
{
    Value::Object(fields.into_iter().collect())
}

} // verus!
