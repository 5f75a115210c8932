//! JSON values as plain data, and the reads that the providers' answers need.
use vstd::prelude::*;
use serde_json::Value;

verus! {

/// `serde_json::Value`, which is only converted into `JsonValue`.
#[verifier::external_type_specification]
#[verifier::external_body]
pub struct ExValue(serde_json::Value);

/// One member of a JSON object: its key and its value.
#[derive(Debug)]
pub struct JsonMember {
    pub key: String,
    pub value: JsonValue,
}

/// A JSON value. Numbers keep their text; an object keeps its members, whose
/// keys are distinct.
#[derive(Debug)]
pub enum JsonValue {
    Null,
    Bool(bool),
    Number(String),
    Str(String),
    Array(Vec<JsonValue>),
    Object(Vec<JsonMember>),
}

/// What `serde_json::from_str` makes of the text: `None` when it is not one
/// JSON value.
pub uninterp spec fn json_of(text: Seq<char>) -> Option<JsonValue>;

/// Relies on the variants of `serde_json::Value`, each moved into the
/// variant of the same name (a number as the text that `Number`'s `Display`
/// gives).
#[verifier::external_body]
fn value_to_json(v: Value) -> JsonValue {
    match v {
        Value::Null => JsonValue::Null,
        Value::Bool(b) => JsonValue::Bool(b),
        Value::Number(n) => JsonValue::Number(n.to_string()),
        Value::String(s) => JsonValue::Str(s),
        Value::Array(items) => JsonValue::Array(items.into_iter().map(value_to_json).collect()),
        Value::Object(map) => JsonValue::Object(
            map.into_iter().map(|(key, value)| JsonMember { key, value: value_to_json(value) }).collect(),
        ),
    }
}

/// Relies on `serde_json::from_str`: the value depends on the text alone.
#[verifier::external_body]
pub fn parse_json(text: &str) -> (r: Option<JsonValue>)
    ensures
        r == json_of(text@),
{
    serde_json::from_str::<Value>(text).ok().map(value_to_json)
}

/// The value under `key` among `members`, the first one with that key.
pub open spec fn member_in(members: Seq<JsonMember>, key: Seq<char>) -> Option<JsonValue>
    decreases members.len(),
{
    if members.len() == 0 {
        None
    } else if members[0].key@ == key {
        Some(members[0].value)
    } else {
        member_in(members.drop_first(), key)
    }
}

/// The member of `v` under `key`, when `v` is an object that has one.
pub open spec fn get_member(v: JsonValue, key: Seq<char>) -> Option<JsonValue> {
    match v {
        JsonValue::Object(members) => member_in(members@, key),
        _ => None,
    }
}

/// `v[key]`: the member under `key`, or null when there is none.
pub open spec fn at(v: JsonValue, key: Seq<char>) -> JsonValue {
    match get_member(v, key) {
        Some(m) => m,
        None => JsonValue::Null,
    }
}

/// The text of `v` when it is a JSON string.
pub open spec fn text_of(v: JsonValue) -> Option<Seq<char>> {
    match v {
        JsonValue::Str(s) => Some(s@),
        _ => None,
    }
}

/// Finds the member of `v` under `key`.
pub fn member<'a>(v: &'a JsonValue, key: &str) -> (r: Option<&'a JsonValue>)
    ensures
        match r {
            Some(m) => get_member(*v, key@) == Some(*m),
            None => get_member(*v, key@).is_none(),
        },
{
    match v {
        JsonValue::Object(members) => {
            let k = String::from_str(key);
            let mut i: usize = 0;
            assert(members@.subrange(0, members@.len() as int) =~= members@);
            while i < members.len()
                invariant
                    i <= members.len(),
                    k@ == key@,
                    get_member(*v, key@) == member_in(members@, key@),
                    member_in(members@, key@) == member_in(members@.subrange(i as int, members@.len() as int), key@),
                decreases members.len() - i,
            {
                let ghost rest = members@.subrange(i as int, members@.len() as int);
                assert(rest[0] == members@[i as int]);
                if members[i].key == k {
                    assert(member_in(rest, key@) == Some(rest[0].value));
                    return Some(&members[i].value);
                }
                assert(rest.drop_first() =~= members@.subrange(i + 1, members@.len() as int));
                i = i + 1;
            }
            assert(members@.subrange(i as int, members@.len() as int).len() == 0);
            None
        },
        _ => None,
    }
}

/// The text of `v` when it is a JSON string, copied.
pub fn string_of(v: &JsonValue) -> (r: Option<String>)
    ensures
        match r {
            Some(s) => text_of(*v) == Some(s@),
            None => text_of(*v).is_none(),
        },
{
    match v {
        JsonValue::Str(s) => Some(s.clone()),
        _ => None,
    }
}

/// The text of the member of `v` under `key`, when it is a JSON string.
pub fn member_text(v: &JsonValue, key: &str) -> (r: Option<String>)
    ensures
        match r {
            Some(s) => text_of(at(*v, key@)) == Some(s@),
            None => text_of(at(*v, key@)).is_none(),
        },
{
    match member(v, key) {
        Some(m) => string_of(m),
        None => None,
    }
}

} // verus!
