//! File names built from the naming template of the settings.
//!
//! The template may hold the placeholders `{song}`, `{artist}`, `{album}` and `{quality}`
//! (the default template is `{song} - {artist}`); each is replaced by the song's field.

use vstd::prelude::*;
use crate::download::task::SongInfo;
use crate::text::{occurs_at, push_char, to_chars};

verus! {

/// The template filled with the song's fields, read from left to right: at each position a
/// placeholder is replaced by its field, any other character is kept.
pub open spec fn fill_template(
    t: Seq<char>,
    title: Seq<char>,
    artist: Seq<char>,
    album: Seq<char>,
    quality: Seq<char>,
) -> Seq<char>
    decreases t.len(),
{
    if t.len() == 0 {
        Seq::empty()
    } else if occurs_at(t, "{song}"@, 0) && "{song}"@.len() > 0 {
        title + fill_template(t.subrange("{song}"@.len() as int, t.len() as int), title, artist, album, quality)
    } else if occurs_at(t, "{artist}"@, 0) && "{artist}"@.len() > 0 {
        artist + fill_template(t.subrange("{artist}"@.len() as int, t.len() as int), title, artist, album, quality)
    } else if occurs_at(t, "{album}"@, 0) && "{album}"@.len() > 0 {
        album + fill_template(t.subrange("{album}"@.len() as int, t.len() as int), title, artist, album, quality)
    } else if occurs_at(t, "{quality}"@, 0) && "{quality}"@.len() > 0 {
        quality + fill_template(t.subrange("{quality}"@.len() as int, t.len() as int), title, artist, album, quality)
    } else {
        seq![t[0]] + fill_template(t.drop_first(), title, artist, album, quality)
    }
}

/// The file name (without extension) that `template` gives for `song`.
pub open spec fn spec_build_filename(template: Seq<char>, song: SongInfo) -> Seq<char> {
    fill_template(template, song.title@, song.artist@, song.album@, song.quality@)
}

/// The default template `{song} - {artist}` names a file `<title> - <artist>`.
pub proof fn lemma_default_template(title: Seq<char>, artist: Seq<char>, album: Seq<char>, quality: Seq<char>)
    ensures
        fill_template("{song} - {artist}"@, title, artist, album, quality) == title + " - "@ + artist,
{
    reveal_strlit("{song} - {artist}");
    reveal_strlit("{song}");
    reveal_strlit("{artist}");
    reveal_strlit("{album}");
    reveal_strlit("{quality}");
    reveal_strlit(" - ");
    let t = "{song} - {artist}"@;
    let t1 = t.subrange(6, 17);
    let t2 = t1.drop_first();
    let t3 = t2.drop_first();
    let t4 = t3.drop_first();
    assert(t.subrange(0, 6) =~= "{song}"@);
    assert(t4 =~= "{artist}"@);
    assert(t4[1] == 'a');
    assert(t4.subrange(0, 6)[1] == t4[1]);
    assert(!occurs_at(t4, "{song}"@, 0));
    assert(t4.subrange(0, 8) =~= "{artist}"@);
    assert(t4.subrange(8, 8) =~= Seq::<char>::empty());
    assert(fill_template(t4.subrange(8, 8), title, artist, album, quality) == Seq::<char>::empty());
    assert(fill_template(t4, title, artist, album, quality) =~= artist);
    assert(t1[0] == ' ' && t2[0] == '-' && t3[0] == ' ');
    assert(t1.subrange(0, 6)[0] == t1[0]);
    assert(t1.subrange(0, 8)[0] == t1[0]);
    assert(t1.subrange(0, 7)[0] == t1[0]);
    assert(t1.subrange(0, 9)[0] == t1[0]);
    assert(t2.subrange(0, 6)[0] == t2[0]);
    assert(t2.subrange(0, 8)[0] == t2[0]);
    assert(t2.subrange(0, 7)[0] == t2[0]);
    assert(t2.subrange(0, 9)[0] == t2[0]);
    assert(t3.subrange(0, 6)[0] == t3[0]);
    assert(t3.subrange(0, 8)[0] == t3[0]);
    assert(t3.subrange(0, 7)[0] == t3[0]);
    assert(t3.subrange(0, 9)[0] == t3[0]);
    assert(fill_template(t3, title, artist, album, quality) =~= seq![' '] + artist);
    assert(fill_template(t2, title, artist, album, quality) =~= seq!['-', ' '] + artist);
    assert(fill_template(t1, title, artist, album, quality) =~= seq![' ', '-', ' '] + artist);
    assert(" - "@ =~= seq![' ', '-', ' ']);
    assert(fill_template(t, title, artist, album, quality) =~= title + (seq![' ', '-', ' '] + artist));
}

/// Whether `pat` (non-empty) occurs in `v` at position `i`.
fn matches_at(v: &Vec<char>, pat: &Vec<char>, i: usize) -> (r: bool)
    requires
        i <= v@.len(),
    ensures
        r == (occurs_at(v@.subrange(i as int, v@.len() as int), pat@, 0)),
{
    let n = v.len();
    if pat.len() > n - i {
        return false;
    }
    let mut j: usize = 0;
    while j < pat.len()
        invariant
            n == v@.len(),
            i + pat@.len() <= n,
            j <= pat@.len(),
            forall|k: int| 0 <= k < j ==> v@[i + k] == pat@[k],
        decreases pat@.len() - j,
    {
        if v[i + j] != pat[j] {
            assert(v@.subrange(i as int, n as int).subrange(0, pat@.len() as int)[j as int] != pat@[j as int]);
            return false;
        }
        j += 1;
    }
    assert(v@.subrange(i as int, n as int).subrange(0, pat@.len() as int) =~= pat@);
    true
}

proof fn lemma_tail_step(v: Seq<char>, i: int, k: int)
    requires
        0 <= i,
        0 <= k,
        i + k <= v.len(),
    ensures
        v.subrange(i, v.len() as int).subrange(k, v.len() - i) == v.subrange(i + k, v.len() as int),
{
    assert(v.subrange(i, v.len() as int).subrange(k, v.len() - i) =~= v.subrange(i + k, v.len() as int));
}

/// Builds the file name for `song` from the naming template.
pub fn build_filename(template: &str, song: &SongInfo) -> (r: String)
    ensures
        r@ == spec_build_filename(template@, *song),
{
    let t = to_chars(template);
    let p_song = to_chars("{song}");
    let p_artist = to_chars("{artist}");
    let p_album = to_chars("{album}");
    let p_quality = to_chars("{quality}");
    let title = to_chars(song.title.as_str());
    let artist = to_chars(song.artist.as_str());
    let album = to_chars(song.album.as_str());
    let quality = to_chars(song.quality.as_str());
    proof {
        reveal_strlit("{song}");
        reveal_strlit("{artist}");
        reveal_strlit("{album}");
        reveal_strlit("{quality}");
    }
    let ghost full = spec_build_filename(template@, *song);
    let mut r = String::new();
    let n = t.len();
    let mut i: usize = 0;
    assert(t@.subrange(0, n as int) =~= t@);
    assert(r@ + full =~= full);
    while i < n
        invariant
            n == t@.len(),
            t@ == template@,
            i <= n,
            p_song@ == "{song}"@,
            p_artist@ == "{artist}"@,
            p_album@ == "{album}"@,
            p_quality@ == "{quality}"@,
            p_song@.len() == 6,
            p_artist@.len() == 8,
            p_album@.len() == 7,
            p_quality@.len() == 9,
            title@ == song.title@,
            artist@ == song.artist@,
            album@ == song.album@,
            quality@ == song.quality@,
            full == spec_build_filename(template@, *song),
            full == r@ + fill_template(t@.subrange(i as int, n as int), title@, artist@, album@, quality@),
        decreases n - i,
    {
        let ghost rest = t@.subrange(i as int, n as int);
        let ghost before = r@;
        if matches_at(&t, &p_song, i) {
            append_chars(&mut r, &title);
            proof { lemma_tail_step(t@, i as int, 6); }
            i += 6;
        } else if matches_at(&t, &p_artist, i) {
            append_chars(&mut r, &artist);
            proof { lemma_tail_step(t@, i as int, 8); }
            i += 8;
        } else if matches_at(&t, &p_album, i) {
            append_chars(&mut r, &album);
            proof { lemma_tail_step(t@, i as int, 7); }
            i += 7;
        } else if matches_at(&t, &p_quality, i) {
            append_chars(&mut r, &quality);
            proof { lemma_tail_step(t@, i as int, 9); }
            i += 9;
        } else {
            push_char(&mut r, t[i]);
            proof {
                lemma_tail_step(t@, i as int, 1);
                assert(rest.drop_first() =~= rest.subrange(1, rest.len() as int));
            }
            i += 1;
        }
        assert(full == r@ + fill_template(t@.subrange(i as int, n as int), title@, artist@, album@, quality@));
    }
    assert(t@.subrange(n as int, n as int) =~= Seq::<char>::empty());
    assert(r@ + Seq::<char>::empty() =~= r@);
    r
}

/// Appends the characters `v` to `s`.
fn append_chars(s: &mut String, v: &Vec<char>)
    ensures
        final(s)@ == old(s)@ + v@,
{
    let mut i: usize = 0;
    let ghost s0 = s@;
    while i < v.len()
        invariant
            i <= v@.len(),
            s@ == s0 + v@.subrange(0, i as int),
        decreases v@.len() - i,
    {
        push_char(s, v[i]);
        i += 1;
        assert(s@ =~= s0 + v@.subrange(0, i as int));
    }
    assert(v@.subrange(0, v@.len() as int) =~= v@);
}

} // verus!
