//! Persistence of string values in the JSON data document.

pub mod store_wrapper;
