//! JSON objects as a token's payload and an answer's envelope hold them: a
//! map from keys to values, kept in `serde_json`'s own map.
//!
//! The library sees such an object through its entries, a map from each key
//! to what stands under it. Numbers are kept as `serde_json` keeps them and
//! are read as integers where they are integers.

use vstd::prelude::*;

verus! {

/// `serde_json::Number`, a JSON number: carried, copied and read through
/// the functions below, never looked into.
#[verifier::external_type_specification]
#[verifier::external_body]
pub struct ExJsonNumber(serde_json::Number);

/// `serde_json::Value`, any JSON value: carried, never looked into.
#[verifier::external_type_specification]
#[verifier::external_body]
pub struct ExJsonValue(serde_json::Value);

/// `serde_json::Map`, a JSON object: read and filled through the functions
/// below.
#[verifier::external_type_specification]
#[verifier::external_body]
#[verifier::reject_recursive_types(K)]
#[verifier::reject_recursive_types(V)]
pub struct ExJsonObject<K, V>(serde_json::Map<K, V>);

/// A JSON object with text keys.
pub type JsonObject = serde_json::Map<String, serde_json::Value>;

/// What one entry of a JSON object holds, as far as this library reads it.
pub ghost enum JsonItem {
    /// A JSON number.
    Number(serde_json::Number),
    /// A JSON string.
    Text(Seq<char>),
    /// A JSON boolean.
    Flag(bool),
    /// Anything else: null, an array or an object.
    Other,
}

/// The entries of a JSON object.
pub uninterp spec fn json_entries(object: JsonObject) -> Map<Seq<char>, JsonItem>;

/// What a JSON value is as an entry of an object.
pub uninterp spec fn json_item(value: serde_json::Value) -> JsonItem;

/// The integer that a JSON number stands for, where it is one that fits `i64`.
pub uninterp spec fn number_int(number: serde_json::Number) -> Option<int>;

/// The JSON number that stands for an integer.
pub uninterp spec fn int_number(value: int) -> serde_json::Number;

/// `Clone` of a `serde_json::Number`: the copy is the number itself.
pub assume_specification[ <serde_json::Number as Clone>::clone ](
    number: &serde_json::Number,
) -> (copy: serde_json::Number)
    ensures
        copy == *number,
;

/// `serde_json::Map::new`: an object without entries.
#[verifier::external_body]
pub(crate) fn json_object_new() -> (made: JsonObject)
    ensures
        json_entries(made) =~= Map::empty(),
{
    serde_json::Map::new()
}

/// `serde_json::Map::insert` of a number: the entry under `key` is set, the
/// others stay.
#[verifier::external_body]
pub(crate) fn json_put_number(
    object: &mut JsonObject,
    key: &str,
    number: serde_json::Number,
)
    ensures
        json_entries(*final(object)) == json_entries(*old(object)).insert(
            key@,
            JsonItem::Number(number),
        ),
{
    object.insert(key.to_string(), serde_json::Value::Number(number));
}

/// `serde_json::Map::insert` of a string: the entry under `key` is set, the
/// others stay.
#[verifier::external_body]
pub(crate) fn json_put_text(
    object: &mut JsonObject,
    key: &str,
    text: &str,
)
    ensures
        json_entries(*final(object)) == json_entries(*old(object)).insert(
            key@,
            JsonItem::Text(text@),
        ),
{
    object.insert(key.to_string(), serde_json::Value::String(text.to_string()));
}

/// `serde_json::Map::insert` of a boolean: the entry under `key` is set, the
/// others stay.
#[verifier::external_body]
pub(crate) fn json_put_flag(object: &mut JsonObject, key: &str, flag: bool)
    ensures
        json_entries(*final(object)) == json_entries(*old(object)).insert(
            key@,
            JsonItem::Flag(flag),
        ),
{
    object.insert(key.to_string(), serde_json::Value::Bool(flag));
}

/// `serde_json::Map::insert` of any value: the entry under `key` is set, the
/// others stay.
#[verifier::external_body]
pub(crate) fn json_put_value(object: &mut JsonObject, key: &str, value: serde_json::Value)
    ensures
        json_entries(*final(object)) == json_entries(*old(object)).insert(
            key@,
            json_item(value),
        ),
{
    object.insert(key.to_string(), value);
}

/// The number under `key`, if the object holds one there.
pub open spec fn number_at(entries: Map<Seq<char>, JsonItem>, key: Seq<char>) -> Option<
    serde_json::Number,
> {
    if entries.dom().contains(key) {
        match entries[key] {
            JsonItem::Number(number) => Some(number),
            _ => None,
        }
    } else {
        None
    }
}

/// The text under `key`, if the object holds one there.
pub open spec fn text_at(entries: Map<Seq<char>, JsonItem>, key: Seq<char>) -> Option<Seq<char>> {
    if entries.dom().contains(key) {
        match entries[key] {
            JsonItem::Text(text) => Some(text),
            _ => None,
        }
    } else {
        None
    }
}

/// `serde_json::Map::get` narrowed to a number: `Some` exactly where the
/// entry exists and is a JSON number.
#[verifier::external_body]
pub(crate) fn json_number_at(
    object: &JsonObject,
    key: &str,
) -> (found: Option<serde_json::Number>)
    ensures
        found == number_at(json_entries(*object), key@),
{
    match object.get(key) {
        Some(serde_json::Value::Number(number)) => Some(number.clone()),
        _ => None,
    }
}

/// `serde_json::Map::get` narrowed to a string: `Some` exactly where the
/// entry exists and is a JSON string.
#[verifier::external_body]
pub(crate) fn json_text_at(
    object: &JsonObject,
    key: &str,
) -> (found: Option<String>)
    ensures
        match found {
            Some(text) => text_at(json_entries(*object), key@) == Some(text@),
            None => text_at(json_entries(*object), key@) is None,
        },
{
    match object.get(key) {
        Some(serde_json::Value::String(text)) => Some(text.clone()),
        _ => None,
    }
}

/// `serde_json::Number::from` on an `i64`: the number reads back as the same
/// integer.
#[verifier::external_body]
pub(crate) fn number_from_int(value: i64) -> (number: serde_json::Number)
    ensures
        number == int_number(value as int),
        number_int(number) == Some(value as int),
{
    serde_json::Number::from(value)
}

/// `serde_json::Number::as_i64`: the integer, where the number is one that
/// fits `i64`.
#[verifier::external_body]
pub(crate) fn number_to_int(number: &serde_json::Number) -> (value: Option<i64>)
    ensures
        match value {
            Some(v) => number_int(*number) == Some(v as int),
            None => number_int(*number) is None,
        },
{
    number.as_i64()
}

} // verus!
