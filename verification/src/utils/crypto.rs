//! When encrypted downloads are decrypted.
//!
//! The cipher is built from the key ("ekey") that the front end sends with the task, and
//! only when decryption is enabled in the settings. Building it can still fail on a bad
//! key; decryption is then off for the task.

use vstd::prelude::*;

verus! {

/// Whether a cipher should be built: decryption is enabled and a key was given.
pub fn wants_decryption(key: &str, enabled: bool) -> (r: bool)
    ensures
        r == (enabled && key@.len() > 0),
{
    enabled && !key.is_empty()
}

/// Whether decryption is on for a task: a cipher was wanted and could be built from the key.
pub fn decryption_enabled(wanted: bool, cipher_built: bool) -> (r: bool)
    ensures
        r == (wanted && cipher_built),
{
    wanted && cipher_built
}

} // verus!
