//! Verified core of the HotDownloader API server.

pub mod api;
pub mod commands;
pub mod ctx;
pub mod download;
pub mod json;
pub mod paths;
pub mod storage;
pub mod text;
pub mod utils;
