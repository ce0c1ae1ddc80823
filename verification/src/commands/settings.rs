//! Settings commands: the settings are a JSON text kept under `settings` in the data
//! document.

use vstd::prelude::*;
use crate::download::task_path::setting;
use crate::json::{decode_json, get_field, json_decode, u64_value, JsonNumber, JsonValue};
use crate::storage::store_wrapper::{load_string, loaded_string, save_string, savable, saved_string};

verus! {

/// Loads the saved settings (empty when none were saved).
pub fn load_settings(doc: &JsonValue) -> (r: String)
    ensures
        r@ == loaded_string(*doc, "settings"@),
{
    load_string(doc, "settings")
}

/// Saves the settings.
pub fn save_settings(doc: &mut JsonValue, settings_json: &str)
    requires
        savable(*old(doc)),
    ensures
        saved_string(*old(doc), *final(doc), "settings"@, settings_json@),
{
    save_string(doc, "settings", settings_json)
}

/// The number of concurrent downloads to start with: the `maxConcurrent` setting when it
/// is a non-negative integer (kept to its low 32 bits), 3 otherwise.
pub open spec fn spec_max_concurrent(settings: Option<JsonValue>) -> u32 {
    match u64_value(setting(settings, "maxConcurrent"@)) {
        Some(n) => (n % 0x1_0000_0000) as u32,
        None => 3,
    }
}

/// The number of concurrent downloads that `settings_text`, the stored `settings` entry,
/// configures (3 when it is not JSON).
pub fn max_concurrent_setting(settings_text: &str) -> (r: u32)
    ensures
        r == spec_max_concurrent(json_decode(settings_text@)),
{
    let settings = decode_json(settings_text);
    max_concurrent_of(&settings)
}

/// A `maxConcurrent` setting that is a non-negative integer `n` gives `n` (its low 32 bits
/// when it is larger); only a missing or non-integer setting gives the default 3.
pub proof fn lemma_max_concurrent_is_the_setting(settings: JsonValue, n: u64)
    ensures
        get_field(settings, "maxConcurrent"@) == Some(JsonValue::Number(JsonNumber::PosInt(n)))
            ==> spec_max_concurrent(Some(settings)) as int == n % 0x1_0000_0000,
        get_field(settings, "maxConcurrent"@) == Some(JsonValue::Number(JsonNumber::PosInt(n))) && n < 0x1_0000_0000
            ==> spec_max_concurrent(Some(settings)) == n,
        !(get_field(settings, "maxConcurrent"@) matches Some(JsonValue::Number(JsonNumber::PosInt(_))))
            ==> spec_max_concurrent(Some(settings)) == 3,
        spec_max_concurrent(None) == 3,
{
}

/// The number of concurrent downloads configured in the decoded settings.
pub fn max_concurrent_of(settings: &Option<JsonValue>) -> (r: u32)
    ensures
        r == spec_max_concurrent(*settings),
        match *settings {
            Some(v) => match get_field(v, "maxConcurrent"@) {
                Some(JsonValue::Number(JsonNumber::PosInt(n))) => r as int == n % 0x1_0000_0000
                    && (n < 0x1_0000_0000 ==> r == n),
                _ => r == 3,
            },
            None => r == 3,
        },
{
    let n = match settings {
        Some(v) => match v.get("maxConcurrent") {
            Some(x) => x.as_u64(),
            None => None,
        },
        None => None,
    };
    match n {
        Some(n) => {
            let low = (n & 0xffff_ffff) as u32;
            assert(n & 0xffff_ffff == n % 0x1_0000_0000) by (bit_vector);
            low
        },
        None => 3,
    }
}

} // verus!
