//! What a download task knows about the song it downloads.

use vstd::prelude::*;

verus! {

/// The song information used to name the downloaded file and fill its tags.
pub struct SongInfo {
    pub title: String,
    pub artist: String,
    pub album: String,
    pub quality: String,
    pub cover_url: String,
}

} // verus!
