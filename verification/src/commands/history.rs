//! Search-history commands: the history is a JSON text kept under `history` in the data
//! document.

use vstd::prelude::*;
use crate::json::JsonValue;
use crate::storage::store_wrapper::{load_string, loaded_string, save_string, savable, saved_string};

verus! {

/// Loads the saved search history (empty when none was saved).
pub fn load_history(doc: &JsonValue) -> (r: String)
    ensures
        r@ == loaded_string(*doc, "history"@),
{
    load_string(doc, "history")
}

/// Saves the search history.
pub fn save_history(doc: &mut JsonValue, history_json: &str)
    requires
        savable(*old(doc)),
    ensures
        saved_string(*old(doc), *final(doc), "history"@, history_json@),
{
    save_string(doc, "history", history_json)
}

} // verus!
