//! A plain model of JSON documents, and the decoding of JSON text into it.
//!
//! Settings and the data store are JSON documents. Their text is decoded by serde_json
//! (`decode_json`); the library reads and edits the model below.

use vstd::prelude::*;
use crate::text::str_eq;

verus! {

/// A JSON number, classified as JSON decoders classify it.
pub enum JsonNumber {
    /// A non-negative integer that fits in `u64`.
    PosInt(u64),
    /// A negative integer that fits in `i64`.
    NegInt(i64),
    /// Any other number, kept as its decimal text.
    Float(String),
}

/// A JSON value. Objects keep their members as key/value pairs in order.
pub enum JsonValue {
    Null,
    Bool(bool),
    Number(JsonNumber),
    Str(String),
    Array(Vec<JsonValue>),
    Object(Vec<(String, JsonValue)>),
}

/// serde_json's `Value`, which Verus sees only through `json_model_of`.
#[verifier::external_type_specification]
#[verifier::external_body]
pub struct ExSerdeValue(serde_json::Value);

/// What `serde_json::from_str::<Value>` makes of `text`, in the model: the decoded value, or
/// none when the text is not JSON.
pub uninterp spec fn json_decode(text: Seq<char>) -> Option<JsonValue>;

/// The model of a serde_json value: the same tree; a number becomes `PosInt` when
/// `Number::as_u64` gives a value, else `NegInt` when `as_i64` does, else `Float` with its
/// text; object members come in the map's order.
pub uninterp spec fn json_model_of(v: serde_json::Value) -> JsonValue;

/// Parses `text` as JSON (`serde_json::from_str::<Value>`): the value, or none when the text
/// is not JSON.
#[verifier::external_body]
fn parse_json(text: &str) -> (r: Option<serde_json::Value>)
    ensures
        match r {
            Some(v) => json_decode(text@) == Some(json_model_of(v)),
            None => json_decode(text@) is None,
        },
{
    match serde_json::from_str::<serde_json::Value>(text) {
        Ok(v) => Some(v),
        Err(_) => None,
    }
}

/// Converts a serde_json value into the model, one variant for one: numbers by
/// `Number::as_u64` and `as_i64` (else their text), arrays and object members in order.
#[verifier::external_body]
fn value_to_model(v: serde_json::Value) -> (r: JsonValue)
    ensures
        r == json_model_of(v),
{
    match v {
        serde_json::Value::Null => JsonValue::Null,
        serde_json::Value::Bool(b) => JsonValue::Bool(b),
        serde_json::Value::Number(n) => JsonValue::Number(match (n.as_u64(), n.as_i64()) {
            (Some(u), _) => JsonNumber::PosInt(u),
            (None, Some(i)) => JsonNumber::NegInt(i),
            (None, None) => JsonNumber::Float(n.to_string()),
        }),
        serde_json::Value::String(s) => JsonValue::Str(s),
        serde_json::Value::Array(a) => JsonValue::Array(a.into_iter().map(value_to_model).collect()),
        serde_json::Value::Object(m) => JsonValue::Object(m.into_iter().map(|(k, x)| (k, value_to_model(x))).collect()),
    }
}

impl JsonValue {
    /// The model of a decoded serde_json value.
    pub fn from_serde(v: serde_json::Value) -> (r: JsonValue)
        ensures
            r == json_model_of(v),
    {
        value_to_model(v)
    }
}

/// Decodes JSON text into the model (none when the text is not JSON).
pub fn decode_json(text: &str) -> (r: Option<JsonValue>)
    ensures
        r == json_decode(text@),
{
    match parse_json(text) {
        Some(v) => Some(value_to_model(v)),
        None => None,
    }
}

/// The value stored under `key` among `entries` (the first member with that key).
pub open spec fn entries_lookup(entries: Seq<(String, JsonValue)>, key: Seq<char>) -> Option<JsonValue>
    decreases entries.len(),
{
    if entries.len() == 0 {
        None
    } else if entries[0].0@ == key {
        Some(entries[0].1)
    } else {
        entries_lookup(entries.drop_first(), key)
    }
}

/// The position of the first member with key `key`, or `entries.len()` when there is none.
pub open spec fn key_position(entries: Seq<(String, JsonValue)>, key: Seq<char>) -> int
    decreases entries.len(),
{
    if entries.len() == 0 {
        0
    } else if entries[0].0@ == key {
        0
    } else {
        1 + key_position(entries.drop_first(), key)
    }
}

/// No two members of `entries` share a key.
pub open spec fn keys_unique(entries: Seq<(String, JsonValue)>) -> bool {
    forall|i: int, j: int|
        0 <= i < entries.len() && 0 <= j < entries.len() && i != j ==> entries[i].0@ != entries[j].0@
}

/// The member `key` of `v` when `v` is an object (JSON `value.get(key)`).
pub open spec fn get_field(v: JsonValue, key: Seq<char>) -> Option<JsonValue> {
    match v {
        JsonValue::Object(entries) => entries_lookup(entries@, key),
        _ => None,
    }
}

/// The text of `v` when it is a string (JSON `as_str`).
pub open spec fn str_value(v: Option<JsonValue>) -> Option<Seq<char>> {
    match v {
        Some(JsonValue::Str(s)) => Some(s@),
        _ => None,
    }
}

/// The boolean `v` when it is one (JSON `as_bool`).
pub open spec fn bool_value(v: Option<JsonValue>) -> Option<bool> {
    match v {
        Some(JsonValue::Bool(b)) => Some(b),
        _ => None,
    }
}

/// The integer `v` when it is a non-negative integer that fits in `u64` (JSON `as_u64`).
pub open spec fn u64_value(v: Option<JsonValue>) -> Option<u64> {
    match v {
        Some(JsonValue::Number(JsonNumber::PosInt(n))) => Some(n),
        _ => None,
    }
}

/// Where the first member with a key stands, and what the lookup finds there.
pub proof fn lemma_key_position_props(entries: Seq<(String, JsonValue)>, key: Seq<char>)
    ensures
        0 <= key_position(entries, key) <= entries.len(),
        key_position(entries, key) < entries.len() ==> entries[key_position(entries, key)].0@ == key
            && entries_lookup(entries, key) == Some(entries[key_position(entries, key)].1),
        key_position(entries, key) == entries.len() ==> entries_lookup(entries, key) is None,
        forall|j: int| 0 <= j < key_position(entries, key) ==> entries[j].0@ != key,
    decreases entries.len(),
{
    if entries.len() > 0 && entries[0].0@ != key {
        lemma_key_position_props(entries.drop_first(), key);
        let rest = entries.drop_first();
        assert forall|j: int| 0 <= j < key_position(entries, key) implies entries[j].0@ != key by {
            if j > 0 {
                assert(entries[j] == rest[j - 1]);
            }
        }
    }
}

/// `entries_lookup` and `key_position` seen through the first matching index.
pub proof fn lemma_lookup_is_first_match(entries: Seq<(String, JsonValue)>, key: Seq<char>, p: int)
    requires
        0 <= p <= entries.len(),
        forall|j: int| 0 <= j < p ==> entries[j].0@ != key,
        p < entries.len() ==> entries[p].0@ == key,
    ensures
        key_position(entries, key) == p,
        p < entries.len() ==> entries_lookup(entries, key) == Some(entries[p].1),
        p == entries.len() ==> entries_lookup(entries, key) is None,
    decreases entries.len(),
{
    if entries.len() > 0 && p > 0 {
        let rest = entries.drop_first();
        assert forall|j: int| 0 <= j < p - 1 implies rest[j].0@ != key by {
            assert(rest[j] == entries[j + 1]);
        }
        lemma_lookup_is_first_match(rest, key, p - 1);
    }
}

/// Finds the position of the first member with key `key`.
pub fn find_key(entries: &Vec<(String, JsonValue)>, key: &str) -> (r: usize)
    ensures
        r as int == key_position(entries@, key@),
        r <= entries@.len(),
{
    let mut i: usize = 0;
    while i < entries.len()
        invariant
            i <= entries@.len(),
            forall|j: int| 0 <= j < i ==> entries@[j].0@ != key@,
        decreases entries@.len() - i,
    {
        if str_eq(entries[i].0.as_str(), key) {
            proof {
                lemma_lookup_is_first_match(entries@, key@, i as int);
            }
            return i;
        }
        i += 1;
    }
    proof {
        lemma_lookup_is_first_match(entries@, key@, i as int);
    }
    i
}

impl JsonValue {
    /// The member `key` of this value when it is an object.
    pub fn get(&self, key: &str) -> (r: Option<&JsonValue>)
        ensures
            match r {
                Some(v) => get_field(*self, key@) == Some(*v),
                None => get_field(*self, key@) is None,
            },
    {
        match self {
            JsonValue::Object(entries) => {
                let p = find_key(entries, key);
                proof {
                    lemma_key_position_props(entries@, key@);
                }
                if p < entries.len() {
                    Some(&entries[p].1)
                } else {
                    None
                }
            },
            _ => None,
        }
    }

    /// The text of this value when it is a string.
    pub fn as_str(&self) -> (r: Option<&str>)
        ensures
            match r {
                Some(s) => str_value(Some(*self)) == Some(s@),
                None => str_value(Some(*self)) is None,
            },
    {
        match self {
            JsonValue::Str(s) => Some(s.as_str()),
            _ => None,
        }
    }

    /// This value when it is a boolean.
    pub fn as_bool(&self) -> (r: Option<bool>)
        ensures
            r == bool_value(Some(*self)),
    {
        match self {
            JsonValue::Bool(b) => Some(*b),
            _ => None,
        }
    }

    /// This value when it is a non-negative integer that fits in `u64`.
    pub fn as_u64(&self) -> (r: Option<u64>)
        ensures
            r == u64_value(Some(*self)),
    {
        match self {
            JsonValue::Number(JsonNumber::PosInt(n)) => Some(*n),
            _ => None,
        }
    }

    /// An empty JSON object.
    pub fn empty_object() -> (r: JsonValue)
        ensures
            r matches JsonValue::Object(e) && e@.len() == 0,
    {
        JsonValue::Object(Vec::new())
    }
}

} // verus!
