//! JSON values.
//!
//! Values are `serde_json`'s. What a value holds is the ghost tree [`Json`], and
//! the contracts of the library speak of that tree.

use crate::text::text_view;
use serde_json::Value;
use vstd::prelude::*;

verus! {

/// What a JSON value holds. An object has no order: it maps its keys to the values
/// of its members.
pub enum Json {
    Null,
    Bool(bool),
    /// A number held as an integer.
    Integer(int),
    /// A number held as a binary floating-point number, by its bits.
    Float(u64),
    Text(Seq<char>),
    Array(Seq<Json>),
    Object(Map<Seq<char>, Json>),
}

/// `serde_json`'s JSON value.
#[verifier::external_type_specification]
#[verifier::external_body]
pub struct ExValue(Value);

/// `serde_json`'s map of the members of a JSON object.
#[verifier::external_type_specification]
#[verifier::external_body]
#[verifier::reject_recursive_types(K)]
#[verifier::reject_recursive_types(V)]
pub struct ExMembers<K, V>(serde_json::Map<K, V>);

/// What a JSON value holds.
pub uninterp spec fn json(value: Value) -> Json;

/// What a map of the members of a JSON object holds.
pub uninterp spec fn members(map: serde_json::Map<String, Value>) -> Map<Seq<char>, Json>;

/// What each value of a sequence holds.
pub open spec fn jsons(values: Seq<Value>) -> Seq<Json> {
    Seq::new(values.len(), |i: int| json(values[i]))
}

/// The object without members.
pub open spec fn no_members() -> Map<Seq<char>, Json> {
    Map::empty()
}

/// What an optional value holds.
pub open spec fn json_option(value: Option<Value>) -> Option<Json> {
    match value {
        Some(value) => Some(json(value)),
        None => None,
    }
}

/// What an optional borrowed value holds.
pub open spec fn json_ref(value: Option<&Value>) -> Option<Json> {
    match value {
        Some(value) => Some(json(*value)),
        None => None,
    }
}

impl Json {
    /// The member of an object under `key`; a value that is no object has none.
    pub open spec fn member(self, key: Seq<char>) -> Option<Json> {
        match self {
            Json::Object(map) => if map.contains_key(key) {
                Some(map[key])
            } else {
                None
            },
            _ => None,
        }
    }

    /// The text of a string value.
    pub open spec fn text(self) -> Option<Seq<char>> {
        match self {
            Json::Text(text) => Some(text),
            _ => None,
        }
    }

    /// The text of the member of an object under `key`, where it is a string.
    pub open spec fn text_member(self, key: Seq<char>) -> Option<Seq<char>> {
        match self.member(key) {
            Some(member) => member.text(),
            None => None,
        }
    }
}

/// `map` with `value` under `key` where there is a value, `map` itself otherwise.
pub open spec fn with_member(
    map: Map<Seq<char>, Json>,
    key: Seq<char>,
    value: Option<Json>,
) -> Map<Seq<char>, Json> {
    match value {
        Some(value) => map.insert(key, value),
        None => map,
    }
}

/// The JSON string of an optional text.
pub open spec fn text_json(text: Option<Seq<char>>) -> Option<Json> {
    match text {
        Some(text) => Some(Json::Text(text)),
        None => None,
    }
}

/// The JSON boolean of an optional flag.
pub open spec fn bool_json(flag: Option<bool>) -> Option<Json> {
    match flag {
        Some(flag) => Some(Json::Bool(flag)),
        None => None,
    }
}

/// `Value::as_str`: the text of a JSON string, nothing for any other value.
pub assume_specification[ Value::as_str ](value: &Value) -> (text: Option<&str>)
    ensures
        match text {
            Some(text) => json(*value) == Json::Text(text@),
            None => json(*value) !is Text,
        },
;

/// `Value`'s `Clone`: the copy holds what the value holds. It is derived; the number
/// copies its integer or float, and the map of members clones the `BTreeMap` in it.
pub assume_specification[ <Value as Clone>::clone ](value: &Value) -> (copy: Value)
    ensures
        json(copy) == json(*value),
;

/// `Map::new`: a map without members.
pub assume_specification[ serde_json::Map::<String, Value>::new ]() -> (map: serde_json::Map<
    String,
    Value,
>)
    ensures
        members(map) == no_members(),
;

/// `Map::insert`: puts the value under the key, in place of one that stood there, and
/// hands that one back.
pub assume_specification[ serde_json::Map::<String, Value>::insert ](
    map: &mut serde_json::Map<String, Value>,
    k: String,
    v: Value,
) -> (previous: Option<Value>)
    ensures
        members(*final(map)) == members(*old(map)).insert(k@, json(v)),
        json_option(previous) == Json::Object(members(*old(map))).member(k@),
;

/// `Value::get` with a string: the member of an object under `key`, nothing where the
/// value is no object or has no such member.
#[verifier::external_body]
pub(crate) fn get<'a>(value: &'a Value, key: &str) -> (member: Option<&'a Value>)
    ensures
        match member {
            Some(member) => json(*value).member(key@) == Some(json(*member)),
            None => json(*value).member(key@) is None,
        },
{
    value.get(key)
}

/// `Value::Null`: the JSON null.
#[verifier::external_body]
pub(crate) fn null() -> (value: Value)
    ensures
        json(value) == Json::Null,
{
    Value::Null
}

/// `Value::Bool`: the JSON boolean of a flag.
#[verifier::external_body]
pub(crate) fn boolean(flag: bool) -> (value: Value)
    ensures
        json(value) == Json::Bool(flag),
{
    Value::Bool(flag)
}

/// `Value`'s `From<i64>`: the JSON number of an integer. The number holds a negative
/// integer as an `i64` and any other as a `u64`, so its value is kept.
#[verifier::external_body]
pub(crate) fn integer(number: i64) -> (value: Value)
    ensures
        json(value) == Json::Integer(number as int),
{
    Value::from(number)
}

/// `Value::String`: the JSON string of a text.
#[verifier::external_body]
pub(crate) fn string(text: String) -> (value: Value)
    ensures
        json(value) == Json::Text(text@),
{
    Value::String(text)
}

/// `Value::Array`: the JSON array of the items, in their order.
#[verifier::external_body]
pub(crate) fn array(items: Vec<Value>) -> (value: Value)
    ensures
        json(value) == Json::Array(jsons(items@)),
{
    Value::Array(items)
}

/// `Value::Object`: the JSON object of the members.
#[verifier::external_body]
pub(crate) fn object(map: serde_json::Map<String, Value>) -> (value: Value)
    ensures
        json(value) == Json::Object(members(map)),
{
    Value::Object(map)
}

/// The member of an object under `key`, as a value of its own.
pub(crate) fn cloned_member(value: &Value, key: &str) -> (member: Option<Value>)
    ensures
        json_option(member) == json(*value).member(key@),
{
    match get(value, key) {
        Some(member) => Some(member.clone()),
        None => None,
    }
}

/// A copy of an optional value.
pub(crate) fn clone_option(value: &Option<Value>) -> (copy: Option<Value>)
    ensures
        json_option(copy) == json_option(*value),
{
    match value {
        Some(value) => Some(value.clone()),
        None => None,
    }
}

/// Copies of values.
pub(crate) fn clone_values(values: &Vec<Value>) -> (copies: Vec<Value>)
    ensures
        jsons(copies@) == jsons(values@),
{
    let mut copies: Vec<Value> = Vec::new();
    let mut i: usize = 0;
    while i < values.len()
        invariant
            i <= values@.len(),
            copies@.len() == i,
            forall|k: int| 0 <= k < i ==> json(#[trigger] copies@[k]) == json(values@[k]),
        decreases values@.len() - i,
    {
        copies.push(values[i].clone());
        i = i + 1;
    }
    assert(jsons(copies@) =~= jsons(values@));
    copies
}

/// The text of the member of an object under `key`, where it is a string.
pub(crate) fn text_member(value: &Value, key: &str) -> (text: Option<String>)
    ensures
        text_view(text) == json(*value).text_member(key@),
{
    match get(value, key) {
        Some(member) => match member.as_str() {
            Some(text) => Some(String::from(text)),
            None => None,
        },
        None => None,
    }
}

/// Puts a JSON string under `key` where there is a text.
pub(crate) fn put_text(
    map: &mut serde_json::Map<String, Value>,
    key: &str,
    text: &Option<String>,
)
    ensures
        members(*final(map)) == with_member(members(*old(map)), key@, text_json(text_view(*text))),
{
    if let Some(text) = text {
        let _ = map.insert(String::from(key), string(text.clone()));
    }
}

/// Puts a JSON boolean under `key` where there is a flag.
pub(crate) fn put_bool(map: &mut serde_json::Map<String, Value>, key: &str, flag: &Option<bool>)
    ensures
        members(*final(map)) == with_member(members(*old(map)), key@, bool_json(*flag)),
{
    if let Some(flag) = flag {
        let _ = map.insert(String::from(key), boolean(*flag));
    }
}

/// Puts a copy of a value under `key` where there is one.
pub(crate) fn put_value(map: &mut serde_json::Map<String, Value>, key: &str, value: &Option<Value>)
    ensures
        members(*final(map)) == with_member(members(*old(map)), key@, json_option(*value)),
{
    if let Some(value) = value {
        let _ = map.insert(String::from(key), value.clone());
    }
}

/// The members of an object are those of its map, and no other value has members.
pub proof fn law_members(map: Map<Seq<char>, Json>, other: Json, key: Seq<char>)
    ensures
        map.contains_key(key) ==> Json::Object(map).member(key) == Some(map[key]),
        !map.contains_key(key) ==> Json::Object(map).member(key) is None,
        other !is Object ==> other.member(key) is None,
        !no_members().contains_key(key),
{
}

/// A text member is a member that is a string, and its text.
pub proof fn law_text_members(value: Json, key: Seq<char>, text: Seq<char>)
    ensures
        value.text_member(key) == Some(text) <==> value.member(key) == Some(Json::Text(text)),
{
}

/// The values of a sequence are held one for one, in their order.
pub proof fn law_jsons(values: Seq<Value>, i: int)
    requires
        0 <= i < values.len(),
    ensures
        jsons(values).len() == values.len(),
        jsons(values)[i] == json(values[i]),
{
}

/// An optional value holds what the value holds where there is one.
pub proof fn law_json_option(value: Value)
    ensures
        json_option(Some(value)) == Some(json(value)),
        json_option(None) is None,
        json_ref(Some(&value)) == Some(json(value)),
        json_ref(None) is None,
{
}

} // verus!
