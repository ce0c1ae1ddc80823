//! String values kept under keys of the data document (`data.json`).
//!
//! The document is a JSON object; each saved value is a JSON string under its key.

use vstd::prelude::*;
use crate::json::{find_key, get_field, key_position, keys_unique, lemma_key_position_props, lemma_lookup_is_first_match, str_value, JsonValue};
use crate::text::owned;

verus! {

/// The members of `doc` when it is an object; no members otherwise.
pub open spec fn object_entries(doc: JsonValue) -> Seq<(String, JsonValue)> {
    match doc {
        JsonValue::Object(entries) => entries@,
        _ => Seq::empty(),
    }
}

/// What `load_string` returns: the string stored under `key`, or the empty string when
/// the document has no string there.
pub open spec fn loaded_string(doc: JsonValue, key: Seq<char>) -> Seq<char> {
    match str_value(get_field(doc, key)) {
        Some(s) => s,
        None => Seq::empty(),
    }
}

/// A document that `save_string` accepts: an object, or `null` (which becomes an object).
pub open spec fn savable(doc: JsonValue) -> bool {
    doc is Object || doc is Null
}

/// How `save_string` changes the document: `after` is an object whose members are those of
/// `before`, with the member `key` set to the string `value` (appended when it was absent).
pub open spec fn saved_string(before: JsonValue, after: JsonValue, key: Seq<char>, value: Seq<char>) -> bool {
    let old_entries = object_entries(before);
    let p = key_position(old_entries, key);
    &&& after is Object
    &&& object_entries(after).len() == if p < old_entries.len() {
        old_entries.len()
    } else {
        old_entries.len() + 1
    }
    &&& forall|i: int| 0 <= i < old_entries.len() && i != p ==> object_entries(after)[i] == old_entries[i]
    &&& object_entries(after)[p].0@ == key
    &&& object_entries(after)[p].1 matches JsonValue::Str(s) && s@ == value
}

/// Loads the string stored under `key` (empty when there is none).
pub fn load_string(doc: &JsonValue, key: &str) -> (r: String)
    ensures
        r@ == loaded_string(*doc, key@),
{
    match doc.get(key) {
        Some(v) => match v.as_str() {
            Some(s) => owned(s),
            None => String::new(),
        },
        None => String::new(),
    }
}

/// Saves `value` as a string under `key`.
pub fn save_string(doc: &mut JsonValue, key: &str, value: &str)
    requires
        savable(*old(doc)),
    ensures
        saved_string(*old(doc), *final(doc), key@, value@),
{
    let ghost before = *doc;
    let new_value = JsonValue::Str(owned(value));
    match doc {
        JsonValue::Object(entries) => {
            let p = find_key(entries, key);
            if p < entries.len() {
                entries.set(p, (owned(key), new_value));
            } else {
                entries.push((owned(key), new_value));
            }
        },
        _ => {
            let mut entries: Vec<(String, JsonValue)> = Vec::new();
            entries.push((owned(key), new_value));
            *doc = JsonValue::Object(entries);
        },
    }
}

/// A read after a write gives back what was written, and leaves every other key as it was.
pub proof fn lemma_load_after_save(
    before: JsonValue,
    after: JsonValue,
    key: Seq<char>,
    value: Seq<char>,
    other: Seq<char>,
)
    requires
        saved_string(before, after, key, value),
    ensures
        loaded_string(after, key) == value,
        other != key ==> get_field(after, other) == get_field(before, other),
        other != key ==> loaded_string(after, other) == loaded_string(before, other),
{
    let e1 = object_entries(before);
    let e2 = object_entries(after);
    let p = key_position(e1, key);
    lemma_key_position_props(e1, key);
    assert forall|j: int| 0 <= j < p implies e2[j].0@ != key by {
        assert(e2[j] == e1[j]);
    }
    lemma_lookup_is_first_match(e2, key, p);
    if other != key {
        let q = key_position(e1, other);
        lemma_key_position_props(e1, other);
        if q < e1.len() {
            assert forall|j: int| 0 <= j < q implies e2[j].0@ != other by {
                if j != p {
                    assert(e2[j] == e1[j]);
                }
            }
            assert(q != p);
            assert(e2[q] == e1[q]);
            lemma_lookup_is_first_match(e2, other, q);
            lemma_lookup_is_first_match(e1, other, q);
        } else {
            let n2 = e2.len() as int;
            assert forall|j: int| 0 <= j < n2 implies e2[j].0@ != other by {
                if j != p {
                    assert(e2[j] == e1[j]);
                }
            }
            lemma_lookup_is_first_match(e2, other, n2);
            lemma_lookup_is_first_match(e1, other, q);
        }
    }
}

/// Settings, history and tasks are kept under different keys: saving one of them leaves the
/// other two as they were.
pub proof fn lemma_entries_independent(before: JsonValue, after: JsonValue, value: Seq<char>)
    ensures
        saved_string(before, after, "settings"@, value) ==> loaded_string(after, "history"@) == loaded_string(before, "history"@)
            && loaded_string(after, "tasks"@) == loaded_string(before, "tasks"@),
        saved_string(before, after, "history"@, value) ==> loaded_string(after, "settings"@) == loaded_string(before, "settings"@)
            && loaded_string(after, "tasks"@) == loaded_string(before, "tasks"@),
        saved_string(before, after, "tasks"@, value) ==> loaded_string(after, "settings"@) == loaded_string(before, "settings"@)
            && loaded_string(after, "history"@) == loaded_string(before, "history"@),
{
    reveal_strlit("settings");
    reveal_strlit("history");
    reveal_strlit("tasks");
    assert("settings"@.len() != "history"@.len());
    assert("settings"@.len() != "tasks"@.len());
    assert("history"@.len() != "tasks"@.len());
    if saved_string(before, after, "settings"@, value) {
        lemma_load_after_save(before, after, "settings"@, value, "history"@);
        lemma_load_after_save(before, after, "settings"@, value, "tasks"@);
    }
    if saved_string(before, after, "history"@, value) {
        lemma_load_after_save(before, after, "history"@, value, "settings"@);
        lemma_load_after_save(before, after, "history"@, value, "tasks"@);
    }
    if saved_string(before, after, "tasks"@, value) {
        lemma_load_after_save(before, after, "tasks"@, value, "settings"@);
        lemma_load_after_save(before, after, "tasks"@, value, "history"@);
    }
}

/// Saving keeps the keys of an object distinct.
pub proof fn lemma_save_keeps_keys_unique(before: JsonValue, after: JsonValue, key: Seq<char>, value: Seq<char>)
    requires
        keys_unique(object_entries(before)),
        saved_string(before, after, key, value),
    ensures
        keys_unique(object_entries(after)),
{
    let e1 = object_entries(before);
    let e2 = object_entries(after);
    let p = key_position(e1, key);
    lemma_key_position_props(e1, key);
    assert forall|i: int, j: int|
        0 <= i < e2.len() && 0 <= j < e2.len() && i != j implies e2[i].0@ != e2[j].0@ by {
        if i != p && j != p {
            assert(e2[i] == e1[i]);
            assert(e2[j] == e1[j]);
        } else if i == p {
            assert(e2[j] == e1[j]);
            if p == e1.len() {
                assert(e1[j].0@ != key);
            } else {
                assert(e1[p].0@ == key);
            }
        } else {
            assert(e2[i] == e1[i]);
            if p == e1.len() {
                assert(e1[i].0@ != key);
            } else {
                assert(e1[p].0@ == key);
            }
        }
    }
}

} // verus!
