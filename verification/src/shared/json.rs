//! JSON documents of `serde_json`, and what they hold.
//!
//! Every contract of the library that speaks of a document speaks of the [`Json`] tree that the
//! document holds. `serde_json` is called by the functions below, and by the one in `raw.rs` that finds
//! the end of a value.
use serde_json::Number;
use serde_json::Value;
use vstd::prelude::*;

verus! {

/// `serde_json::Value`.
#[verifier::external_type_specification]
#[verifier::external_body]
pub struct ExValue(serde_json::Value);

/// `serde_json::Number`. The library carries numbers through and reads them with
/// [`number_as_i64`] only.
#[verifier::external_type_specification]
#[verifier::external_body]
pub struct ExNumber(serde_json::Number);

/// `serde_json::Map`.
#[verifier::external_type_specification]
#[verifier::external_body]
#[verifier::reject_recursive_types(K)]
#[verifier::reject_recursive_types(V)]
pub struct ExJsonMap<K, V>(serde_json::Map<K, V>);

/// A JSON object as `serde_json` stores it.
pub type JsonObject = serde_json::Map<String, Value>;

/// What a JSON document holds.
pub ghost enum Json {
    Null,
    Bool(bool),
    Number(Number),
    Str(Seq<char>),
    Array(Seq<Json>),
    Object(Map<Seq<char>, Json>),
}

/// What a `serde_json::Value` holds.
pub uninterp spec fn value_json(value: serde_json::Value) -> Json;

/// What a `serde_json::Map` holds.
pub uninterp spec fn object_json(object: JsonObject) -> Map<Seq<char>, Json>;

/// What `serde_json::from_str` makes of a text: the document, or the text of its error.
pub uninterp spec fn json_parse(text: Seq<char>) -> Result<Json, Seq<char>>;

/// The text that `serde_json` writes for a document.
pub uninterp spec fn json_print(json: Json) -> Seq<char>;

/// The number that `serde_json` makes of an integer.
pub uninterp spec fn number_of_i64(n: i64) -> serde_json::Number;

/// The integer that a number stands for, where it stands for one that fits.
pub uninterp spec fn number_i64(n: serde_json::Number) -> Option<i64>;

/// The outermost layer of a document, borrowed.
pub enum JsonRef<'a> {
    Null,
    Bool(bool),
    Number(&'a Number),
    Str(&'a str),
    Array(&'a Vec<Value>),
    Object(&'a JsonObject),
}

/// The outermost layer of a document to be made.
pub enum JsonNode {
    Bool(bool),
    Number(Number),
    Str(String),
    Array(Vec<Value>),
    Object(JsonObject),
}

/// What the items of an array hold.
pub open spec fn values_json(items: Seq<Value>) -> Seq<Json> {
    Seq::new(items.len(), |i: int| value_json(items[i]))
}

/// The members of an object that has none.
pub open spec fn no_members() -> Map<Seq<char>, Json> {
    Map::empty()
}

impl<'a> JsonRef<'a> {
    /// The document that the layer is the outermost one of.
    pub open spec fn json(self) -> Json {
        match self {
            JsonRef::Null => Json::Null,
            JsonRef::Bool(b) => Json::Bool(b),
            JsonRef::Number(n) => Json::Number(*n),
            JsonRef::Str(s) => Json::Str(s@),
            JsonRef::Array(items) => Json::Array(values_json(items@)),
            JsonRef::Object(object) => Json::Object(object_json(*object)),
        }
    }
}

impl JsonNode {
    /// The document that the layer is the outermost one of.
    pub open spec fn json(self) -> Json {
        match self {
            JsonNode::Bool(b) => Json::Bool(b),
            JsonNode::Number(n) => Json::Number(n),
            JsonNode::Str(s) => Json::Str(s@),
            JsonNode::Array(items) => Json::Array(values_json(items@)),
            JsonNode::Object(object) => Json::Object(object_json(object)),
        }
    }
}

/// `entries` lists each member of an object once.
pub open spec fn entries_of(entries: Seq<(String, Value)>, members: Map<Seq<char>, Json>) -> bool {
    &&& forall|i: int, j: int|
        0 <= i < j < entries.len() ==> (#[trigger] entries[i]).0@ != (#[trigger] entries[j]).0@
    &&& forall|i: int|
        0 <= i < entries.len() ==> members.dom().contains((#[trigger] entries[i]).0@)
            && members[entries[i].0@] == value_json(entries[i].1)
    &&& forall|key: Seq<char>| #[trigger]
        members.dom().contains(key) ==> exists|i: int|
            0 <= i < entries.len() && (#[trigger] entries[i]).0@ == key
}

/// `serde_json::from_str` into a `Value`; an error is handed on as its text.
#[verifier::external_body]
pub(crate) fn parse_value(text: &str) -> (result: Result<Value, String>)
    ensures
        match result {
            Ok(value) => json_parse(text@) == Ok::<Json, Seq<char>>(value_json(value)),
            Err(message) => json_parse(text@) == Err::<Json, Seq<char>>(message@),
        },
{
    serde_json::from_str::<Value>(text).map_err(|e| e.to_string())
}

/// `Value::to_string`: the text is a function of what the document holds.
#[verifier::external_body]
pub(crate) fn print_value(value: &Value) -> (text: String)
    ensures
        text@ == json_print(value_json(*value)),
{
    value.to_string()
}

/// Tells the variants of a `Value` apart.
#[verifier::external_body]
pub(crate) fn open_value(value: &Value) -> (layer: JsonRef<'_>)
    ensures
        layer.json() == value_json(*value),
{
    match value {
        Value::Null => JsonRef::Null,
        Value::Bool(b) => JsonRef::Bool(*b),
        Value::Number(n) => JsonRef::Number(n),
        Value::String(s) => JsonRef::Str(s.as_str()),
        Value::Array(items) => JsonRef::Array(items),
        Value::Object(object) => JsonRef::Object(object),
    }
}

/// `Number::from`: the number stands for that integer.
#[verifier::external_body]
pub(crate) fn number_from_i64(n: i64) -> (number: Number)
    ensures
        number == number_of_i64(n),
        number_i64(number) == Some(n),
{
    Number::from(n)
}

/// `Map::new`: the object without members.
#[verifier::external_body]
pub(crate) fn new_object() -> (object: JsonObject)
    ensures
        object_json(object) == no_members(),
{
    serde_json::Map::new()
}

/// `Map::insert`: sets the member, whether it was there or not.
#[verifier::external_body]
pub(crate) fn insert_member(object: &mut JsonObject, key: &str, value: Value)
    ensures
        object_json(*final(object)) == object_json(*old(object)).insert(key@, value_json(value)),
{
    object.insert(key.to_string(), value);
}

/// `Map::remove`: the object without the member, whether it was there or not.
#[verifier::external_body]
pub(crate) fn remove_member(object: &mut JsonObject, key: &str)
    ensures
        object_json(*final(object)) == object_json(*old(object)).remove(key@),
{
    object.remove(key);
}

/// `Map::get`: the member, where there is one.
#[verifier::external_body]
pub(crate) fn get_member<'a>(object: &'a JsonObject, key: &str) -> (member: Option<&'a Value>)
    ensures
        match member {
            Some(value) => object_json(*object).dom().contains(key@)
                && object_json(*object)[key@] == value_json(*value),
            None => !object_json(*object).dom().contains(key@),
        },
{
    object.get(key)
}

/// `Map::iter`, with clones of the members: each member once, in some order.
#[verifier::external_body]
pub(crate) fn members(object: &JsonObject) -> (entries: Vec<(String, Value)>)
    ensures
        entries_of(entries@, object_json(*object)),
{
    object.iter().map(|(key, value)| (key.clone(), value.clone())).collect()
}

/// `Value::clone`: a document that holds the same.
#[verifier::external_body]
pub(crate) fn clone_value(value: &Value) -> (clone: Value)
    ensures
        value_json(clone) == value_json(*value),
{
    value.clone()
}

/// `Map::clone`: an object that holds the same.
#[verifier::external_body]
pub(crate) fn clone_object(object: &JsonObject) -> (clone: JsonObject)
    ensures
        object_json(clone) == object_json(*object),
{
    object.clone()
}

/// `Number::clone`: the same number.
#[verifier::external_body]
pub(crate) fn clone_number(number: &Number) -> (clone: Number)
    ensures
        clone == *number,
{
    number.clone()
}

/// `Number::as_i64`.
#[verifier::external_body]
pub(crate) fn number_as_i64(number: &Number) -> (n: Option<i64>)
    ensures
        n == number_i64(*number),
{
    number.as_i64()
}

/// Makes a `Value` of its outermost layer, variant by variant.
#[verifier::external_body]
pub(crate) fn close_value(layer: JsonNode) -> (value: Value)
    ensures
        value_json(value) == layer.json(),
{
    match layer {
        JsonNode::Bool(b) => Value::Bool(b),
        JsonNode::Number(n) => Value::Number(n),
        JsonNode::Str(s) => Value::String(s),
        JsonNode::Array(items) => Value::Array(items),
        JsonNode::Object(object) => Value::Object(object),
    }
}

} // verus!
