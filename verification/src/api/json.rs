//! JSON documents as `serde_json` holds them, and the mathematical model
//! that the contracts of this library speak of.
//!
//! Nothing in this module is proved: every function here is a thin call into
//! `serde_json` whose contract restates what that crate's source shows.

use serde_json::Value;
use vstd::prelude::*;

verus! {

/// A JSON document as a mathematical value.
///
/// Objects are maps from key to member, so the order of the members and
/// repeated keys play no part. A number stands for itself by its decimal
/// text; this library never looks inside one.
pub enum Json {
    Null,
    Bool(bool),
    Number(Seq<char>),
    Text(Seq<char>),
    Array(Seq<Json>),
    Object(Map<Seq<char>, Json>),
}

/// `serde_json::Value`, carried as it is; `json_of` says what it holds.
#[verifier::external_type_specification]
#[verifier::external_body]
pub struct ExValue(serde_json::Value);

/// `serde_json::Map`, the members of a JSON object; `members_of` says what it
/// holds.
#[verifier::external_type_specification]
#[verifier::external_body]
#[verifier::reject_recursive_types(K)]
#[verifier::reject_recursive_types(V)]
pub struct ExObject<K, V>(serde_json::Map<K, V>);

/// `serde_json::Error`, of which nothing is read.
#[verifier::external_type_specification]
#[verifier::external_body]
pub struct ExJsonError(serde_json::Error);

/// The document that a `serde_json::Value` holds.
pub uninterp spec fn json_of(value: Value) -> Json;

/// The members that a `serde_json::Map` holds, each by the document it holds.
pub uninterp spec fn members_of(object: serde_json::Map<String, Value>) -> Map<Seq<char>, Json>;

/// `Value::default()`: the source returns `Value::Null`.
#[verifier::external_body]
pub(crate) fn null_value() -> (value: Value)
    ensures
        json_of(value) == Json::Null,
{
    Value::default()
}

/// `Value::is_null`: true for `Value::Null` and for no other variant.
#[verifier::external_body]
pub(crate) fn is_null(value: &Value) -> (null: bool)
    ensures
        null == (json_of(*value) is Null),
{
    value.is_null()
}

/// `Value::String`: the variant that holds a string.
#[verifier::external_body]
pub(crate) fn text_value(text: String) -> (value: Value)
    ensures
        json_of(value) == Json::Text(text@),
{
    Value::String(text)
}

/// `Value::as_str`: the string of `Value::String`, and `None` for every other
/// variant.
#[verifier::external_body]
pub(crate) fn as_text(value: &Value) -> (text: Option<&str>)
    ensures
        text matches Some(t) ==> json_of(*value) == Json::Text(t@),
        text is None ==> !(json_of(*value) is Text),
{
    value.as_str()
}

/// `Value::clone`: the derived copy holds the same document.
#[verifier::external_body]
pub(crate) fn clone_value(value: &Value) -> (copy: Value)
    ensures
        json_of(copy) == json_of(*value),
{
    value.clone()
}

/// `serde_json::Map::new`: a map without members.
#[verifier::external_body]
pub(crate) fn new_object() -> (object: serde_json::Map<String, Value>)
    ensures
        members_of(object) == (Map::<Seq<char>, Json>::empty()),
{
    serde_json::Map::new()
}

/// `serde_json::Map::insert`: the key now holds the given value, whether or
/// not it held one before, and the other members stay. The value that the
/// key held before is dropped here.
#[verifier::external_body]
pub(crate) fn object_insert(object: &mut serde_json::Map<String, Value>, key: String, value: Value)
    ensures
        members_of(*final(object)) == members_of(*old(object)).insert(key@, json_of(value)),
{
    object.insert(key, value);
}

/// `serde_json::Map::get`: the member under the key, if there is one.
#[verifier::external_body]
pub(crate) fn object_get<'a>(object: &'a serde_json::Map<String, Value>, key: &str) -> (member:
    Option<&'a Value>)
    ensures
        member is Some <==> members_of(*object).contains_key(key@),
        member matches Some(m) ==> json_of(*m) == members_of(*object)[key@],
{
    object.get(key)
}

/// `Value::Object`: the variant that holds a map.
#[verifier::external_body]
pub(crate) fn object_value(object: serde_json::Map<String, Value>) -> (value: Value)
    ensures
        json_of(value) == Json::Object(members_of(object)),
{
    Value::Object(object)
}

/// `Value::as_object`: the map of `Value::Object`, and `None` for every other
/// variant.
#[verifier::external_body]
pub(crate) fn as_object(value: &Value) -> (object: Option<&serde_json::Map<String, Value>>)
    ensures
        object matches Some(o) ==> json_of(*value) == Json::Object(members_of(*o)),
        object is None ==> !(json_of(*value) is Object),
{
    value.as_object()
}

/// What `serde_json::from_str` reads from a text as a `Value`: the document,
/// or `None` where it turns the text down, because the text is no JSON
/// document or nests deeper than `serde_json` follows.
pub uninterp spec fn parsed(text: Seq<char>) -> Option<Json>;

/// `serde_json::from_str` at the type `Value`: whether it reads a document,
/// and which, depends on the text alone.
#[verifier::external_body]
pub(crate) fn parse(text: &str) -> (value: Result<Value, serde_json::Error>)
    ensures
        value matches Ok(v) ==> parsed(text@) == Some(json_of(v)),
        value is Err ==> parsed(text@) is None,
{
    serde_json::from_str::<Value>(text)
}

} // verus!
