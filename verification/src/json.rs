//! JSON objects, as they travel over the socket.
//!
//! Reading and writing is done by `serde_json`. Its types stay opaque here: what an object under
//! construction holds, and what a given text reads as, has a name, and the rest of the library
//! speaks of those names.

use serde_json::Map as JsonMap;
use serde_json::Value;
use vstd::prelude::*;

verus! {

/// A JSON object under construction.
#[verifier::external_type_specification]
#[verifier::external_body]
#[verifier::reject_recursive_types(K)]
#[verifier::reject_recursive_types(V)]
pub struct ExJsonMap<K, V>(serde_json::Map<K, V>);

/// Any JSON value.
#[verifier::external_type_specification]
#[verifier::external_body]
pub struct ExJsonValue(serde_json::Value);

/// What a member of an object holds, as mathematics.
pub enum JsonValue {
    Text(Seq<char>),
    Number(nat),
}

/// What a member of an object holds.
#[derive(Debug)]
pub enum JsonScalar {
    Text(String),
    Number(usize),
}

impl View for JsonScalar {
    type V = JsonValue;

    open spec fn view(&self) -> JsonValue {
        match self {
            JsonScalar::Text(text) => JsonValue::Text(text@),
            JsonScalar::Number(number) => JsonValue::Number(*number as nat),
        }
    }
}

/// The members of an object, each with its key, in the order in which they are written out.
pub uninterp spec fn json_members(object: serde_json::Map<String, serde_json::Value>) -> Seq<(Seq<char>, JsonValue)>;

/// The text that an object with these members is written as.
pub uninterp spec fn json_text(members: Seq<(Seq<char>, JsonValue)>) -> Seq<char>;

/// The string that `text`, read as a JSON object, holds under `key`, if `text` can be read so
/// and there is a string there.
pub uninterp spec fn json_str_at(text: Seq<char>, key: Seq<char>) -> Option<Seq<char>>;

/// The truth value that `text`, read as a JSON object, holds under `key`, if `text` can be read
/// so and there is a truth value there.
pub uninterp spec fn json_bool_at(text: Seq<char>, key: Seq<char>) -> Option<bool>;

/// Whether one of the members goes by this key.
pub open spec fn has_key(members: Seq<(Seq<char>, JsonValue)>, key: Seq<char>) -> bool {
    exists|i: int| 0 <= i < members.len() && (#[trigger] members[i]).0 == key
}

/// The members once `key` is set to `value`: in its place where the key was there before, at
/// the end where it was not.
pub open spec fn with_member(
    members: Seq<(Seq<char>, JsonValue)>,
    key: Seq<char>,
    value: JsonValue,
) -> Seq<(Seq<char>, JsonValue)> {
    if has_key(members, key) {
        members.map_values(
            |member: (Seq<char>, JsonValue)|
                if member.0 == key {
                    (key, value)
                } else {
                    member
                },
        )
    } else {
        members.push((key, value))
    }
}

/// `serde_json::Map::new`: an object without members.
#[verifier::external_body]
pub(crate) fn json_object() -> (object: JsonMap<String, Value>)
    ensures
        json_members(object) == Seq::<(Seq<char>, JsonValue)>::empty(),
{
    serde_json::Map::new()
}

/// `serde_json::Map::insert`: sets one member. With the feature `preserve_order` a key that is
/// new goes to the end, and a key that was there keeps its place.
#[verifier::external_body]
pub(crate) fn json_put(object: &mut JsonMap<String, Value>, key: &str, value: JsonScalar)
    ensures
        json_members(*final(object)) == with_member(json_members(*old(object)), key@, value@),
{
    let value = match value {
        JsonScalar::Text(text) => Value::String(text),
        JsonScalar::Number(number) => Value::from(number),
    };
    object.insert(key.to_string(), value);
}

/// `serde_json::Value::to_string` on an object: its text, without blanks. The text is a function
/// of the members and their order, and reading it gives back each string under its key.
#[verifier::external_body]
pub(crate) fn json_to_string(object: JsonMap<String, Value>) -> (text: String)
    ensures
        text@ == json_text(json_members(object)),
        forall|i: int| #![trigger json_members(object)[i]]
            0 <= i < json_members(object).len() ==> (json_members(object)[i].1 matches JsonValue::Text(held)
                ==> json_str_at(text@, json_members(object)[i].0) == Some(held)),
{
    Value::Object(object).to_string()
}

/// `serde_json::from_str` to a `serde_json::Value`, then `get` and `as_str`: the string under
/// `key`. `None` where the text is not JSON, not an object, or holds no string under that key.
#[verifier::external_body]
pub(crate) fn json_str(text: &str, key: &str) -> (found: Option<String>)
    ensures
        match found {
            Some(held) => json_str_at(text@, key@) == Some(held@),
            None => json_str_at(text@, key@) is None,
        },
{
    let value = serde_json::from_str::<Value>(text).ok()?;
    let held = value.get(key)?.as_str()?;
    Some(held.to_string())
}

/// `serde_json::from_str` to a `serde_json::Value`, then `get` and `as_bool`: the truth value
/// under `key`. `None` where the text is not JSON, not an object, or holds no truth value under
/// that key.
#[verifier::external_body]
pub(crate) fn json_bool(text: &str, key: &str) -> (found: Option<bool>)
    ensures
        found == json_bool_at(text@, key@),
{
    serde_json::from_str::<Value>(text).ok()?.get(key)?.as_bool()
}

} // verus!
