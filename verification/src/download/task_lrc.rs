//! Lyric files saved next to the song: `<song stem>.lrc` in the song's directory.

use vstd::prelude::*;
use crate::paths::{file_stem, join, parent, spec_file_stem, path_parent, spec_join};
use crate::text::{append_str, owned};

verus! {

/// The path of the lyric file for the song at `song_file_path`: the song's file stem
/// (`unknown` when it has none) with `.lrc`, in the song's directory (`.` when it has none).
pub open spec fn lrc_path(song_file_path: Seq<char>) -> Seq<char> {
    let stem = match spec_file_stem(song_file_path) {
        Some(s) => s,
        None => "unknown"@,
    };
    let dir = match path_parent(song_file_path) {
        Some(p) => p,
        None => "."@,
    };
    spec_join(dir, stem + ".lrc"@)
}

/// The path where the lyric file of a song is written.
pub fn lrc_file_path(song_file_path: &str) -> (r: String)
    ensures
        r@ == lrc_path(song_file_path@),
{
    let stem = match file_stem(song_file_path) {
        Some(s) => s,
        None => owned("unknown"),
    };
    let dir = match parent(song_file_path) {
        Some(p) => p,
        None => owned("."),
    };
    let mut name = stem;
    append_str(&mut name, ".lrc");
    join(dir.as_str(), name.as_str())
}

} // verus!
