//! Utilities: file naming, GUIDs, and the decryption switch.

pub mod crypto;
pub mod filename;
pub mod guid;
