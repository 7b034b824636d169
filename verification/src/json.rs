//! JSON documents of the settings files: a parsed value as the library holds it, the
//! lookup of an object's member by key, setting one member, and the pretty text written.
//! Parsing and printing are serde_json's; what they return is named, not restated.
use vstd::prelude::*;

use crate::text::str_eq;

verus! {

/// serde_json's number, carried through unchanged.
#[verifier::external_type_specification]
#[verifier::external_body]
pub struct ExJsonNumber(serde_json::Number);

/// serde_json's value, only converted to and from `JsonValue` at the two calls.
#[verifier::external_type_specification]
#[verifier::external_body]
pub struct ExSerdeJsonValue(serde_json::Value);

/// A JSON value: an object's members are in the order the parsed map holds them.
#[derive(Debug)]
pub enum JsonValue {
    Null,
    Bool(bool),
    Number(serde_json::Number),
    Text(String),
    Array(Vec<JsonValue>),
    Object(Vec<(String, JsonValue)>),
}

/// The members of an object with their keys as text.
pub open spec fn member_entries(members: Seq<(String, JsonValue)>) -> Seq<(Seq<char>, JsonValue)> {
    members.map_values(|m: (String, JsonValue)| (m.0@, m.1))
}

/// What `serde_json::from_str::<serde_json::Value>` gives for `source`: the value, or the
/// parser's message.
pub uninterp spec fn json_value(source: Seq<char>) -> Result<JsonValue, Seq<char>>;

/// What `serde_json::to_string_pretty` gives for the object with these members (as
/// serde_json's map holds them), or the serializer's message.
pub uninterp spec fn pretty_json(members: Seq<(Seq<char>, JsonValue)>) -> Result<Seq<char>, Seq<char>>;

/// Writes a serde_json value as a `JsonValue`, variant for variant; states nothing itself
/// (the wrappers that use it do).
#[verifier::external_body]
fn json_value_from(value: serde_json::Value) -> JsonValue {
    match value {
        serde_json::Value::Null => JsonValue::Null,
        serde_json::Value::Bool(b) => JsonValue::Bool(b),
        serde_json::Value::Number(n) => JsonValue::Number(n),
        serde_json::Value::String(s) => JsonValue::Text(s),
        serde_json::Value::Array(items) => JsonValue::Array(items.into_iter().map(json_value_from).collect()),
        serde_json::Value::Object(map) => JsonValue::Object(map.into_iter().map(|(k, v)| (k, json_value_from(v))).collect()),
    }
}

/// Writes a `JsonValue` as a serde_json value, variant for variant; states nothing itself
/// (the wrapper that uses it does).
#[verifier::external_body]
fn serde_value_of(value: JsonValue) -> serde_json::Value {
    match value {
        JsonValue::Null => serde_json::Value::Null,
        JsonValue::Bool(b) => serde_json::Value::Bool(b),
        JsonValue::Number(n) => serde_json::Value::Number(n),
        JsonValue::Text(s) => serde_json::Value::String(s),
        JsonValue::Array(items) => serde_json::Value::Array(items.into_iter().map(serde_value_of).collect()),
        JsonValue::Object(members) => serde_json::Value::Object(members.into_iter().map(|(k, v)| (k, serde_value_of(v))).collect()),
    }
}

/// Calls `serde_json::from_str::<serde_json::Value>`; the value is written as a
/// `JsonValue`, the error as its message. The result is named by `json_value`.
#[verifier::external_body]
pub(crate) fn parse_json_value(source: &str) -> (r: Result<JsonValue, String>)
    ensures
        match json_value(source@) {
            Ok(v) => r matches Ok(x) && x == v,
            Err(m) => r matches Err(x) && x@ == m,
        },
{
    match serde_json::from_str::<serde_json::Value>(source) {
        Ok(value) => Ok(json_value_from(value)),
        Err(error) => Err(error.to_string()),
    }
}

/// Calls `serde_json::to_string_pretty` on the object with these members (collected into
/// serde_json's map); the result is named by `pretty_json`.
#[verifier::external_body]
pub(crate) fn pretty_object(members: Vec<(String, JsonValue)>) -> (r: Result<String, String>)
    ensures
        match pretty_json(member_entries(members@)) {
            Ok(t) => r matches Ok(x) && x@ == t,
            Err(m) => r matches Err(x) && x@ == m,
        },
{
    let map: serde_json::Map<String, serde_json::Value> =
        members.into_iter().map(|(k, v)| (k, serde_value_of(v))).collect();
    serde_json::to_string_pretty(&serde_json::Value::Object(map)).map_err(|error| error.to_string())
}

/// The position of the first member with `key`, from `i` on.
pub open spec fn key_index_from(members: Seq<(Seq<char>, JsonValue)>, key: Seq<char>, i: int) -> Option<int>
    decreases members.len() - i,
{
    if i < 0 || i >= members.len() {
        None
    } else if members[i].0 == key {
        Some(i)
    } else {
        key_index_from(members, key, i + 1)
    }
}

pub open spec fn key_index(members: Seq<(Seq<char>, JsonValue)>, key: Seq<char>) -> Option<int> {
    key_index_from(members, key, 0)
}

/// The value under `key` (the first member with it).
pub open spec fn member_value(members: Seq<(Seq<char>, JsonValue)>, key: Seq<char>) -> Option<JsonValue> {
    match key_index(members, key) {
        Some(i) => Some(members[i].1),
        None => None,
    }
}

/// The members with `key` set to `value`: the first member with `key` takes the value,
/// or the member is added at the end.
pub open spec fn with_member(members: Seq<(Seq<char>, JsonValue)>, key: Seq<char>, value: JsonValue) -> Seq<
    (Seq<char>, JsonValue),
> {
    match key_index(members, key) {
        Some(i) => members.update(i, (key, value)),
        None => members.push((key, value)),
    }
}

proof fn lemma_key_index_in_range(members: Seq<(Seq<char>, JsonValue)>, key: Seq<char>, i: int)
    requires
        0 <= i,
    ensures
        key_index_from(members, key, i) matches Some(j) ==> i <= j < members.len() && members[j].0 == key,
    decreases members.len() - i,
{
    if i < members.len() && members[i].0 != key {
        lemma_key_index_in_range(members, key, i + 1);
    }
}

/// The position of the first member with `key`.
pub fn member_index(members: &Vec<(String, JsonValue)>, key: &str) -> (r: Option<usize>)
    ensures
        match key_index(member_entries(members@), key@) {
            Some(i) => r matches Some(j) && j == i && i < members.len(),
            None => r is None,
        },
{
    let ghost all = member_entries(members@);
    proof {
        lemma_key_index_in_range(all, key@, 0);
    }
    let mut i: usize = 0;
    while i < members.len()
        invariant
            i <= members.len(),
            all == member_entries(members@),
            key_index(all, key@) == key_index_from(all, key@, i as int),
        decreases members.len() - i,
    {
        assert(all[i as int].0 == members@[i as int].0@);
        if str_eq(members[i].0.as_str(), key) {
            return Some(i);
        }
        i = i + 1;
    }
    None
}

/// Sets `key` to `value` among an object's members (see `with_member`).
pub fn set_member(members: &mut Vec<(String, JsonValue)>, key: &str, value: JsonValue)
    ensures
        member_entries(final(members)@) == with_member(member_entries(old(members)@), key@, value),
{
    let ghost before = member_entries(members@);
    let found = member_index(members, key);
    match found {
        Some(i) => {
            members.set(i, (String::from_str(key), value));
            proof {
                assert(member_entries(members@) =~= before.update(i as int, (key@, value)));
            }
        },
        None => {
            members.push((String::from_str(key), value));
            proof {
                assert(member_entries(members@) =~= before.push((key@, value)));
            }
        },
    }
}

} // verus!
