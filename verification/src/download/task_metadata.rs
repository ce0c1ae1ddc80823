//! Song tags: which lyric text to embed, the tag edits for a song, and their application to
//! the tags of the song file.

use vstd::prelude::*;
use crate::download::audio_tags::{
    file_contains_tag_type, file_custom_type, file_has_custom_type, file_insert_tag, file_primary_format, file_primary_tag_type, file_remove_tag,
    file_supported_formats, file_tag_formats, first_position, lemma_first_position, new_tag, not_field,
    not_front_cover, tag_accepts, tag_insert_text, tag_pictures, tag_push_jpeg_front_cover,
    tag_remove_field, tag_remove_front_covers, tag_text_items, without_first, TagField, TagFormat,
};
use crate::text::owned;
use lofty::file::TaggedFile;
use lofty::tag::Tag;
use vstd::string::StrSliceExecFns;

verus! {

/// The lyrics of a song: word-timed lyrics and plain LRC lyrics, when available.
pub struct LyricData {
    pub elrc: Option<String>,
    pub lrc: Option<String>,
}

/// The characters Unicode marks `White_Space` (those that trimming removes).
pub open spec fn is_white_space(c: char) -> bool {
    let u = c as u32;
    (0x9 <= u <= 0xd) || u == 0x20 || u == 0x85 || u == 0xa0 || u == 0x1680 || (0x2000 <= u
        <= 0x200a) || u == 0x2028 || u == 0x2029 || u == 0x202f || u == 0x205f || u == 0x3000
}

/// Text that is empty once trimmed: it holds white space only.
pub open spec fn is_blank(s: Seq<char>) -> bool {
    forall|i: int| 0 <= i < s.len() ==> is_white_space(s[i])
}

fn white_space(c: char) -> (r: bool)
    ensures
        r == is_white_space(c),
{
    let u = c as u32;
    (0x9 <= u && u <= 0xd) || u == 0x20 || u == 0x85 || u == 0xa0 || u == 0x1680 || (0x2000 <= u
        && u <= 0x200a) || u == 0x2028 || u == 0x2029 || u == 0x202f || u == 0x205f || u == 0x3000
}

/// Whether `s` holds white space only.
pub fn blank(s: &str) -> (r: bool)
    ensures
        r == is_blank(s@),
{
    let n = s.unicode_len();
    let mut i: usize = 0;
    while i < n
        invariant
            n == s@.len(),
            i <= n,
            forall|j: int| 0 <= j < i ==> is_white_space(s@[j]),
        decreases n - i,
    {
        if !white_space(s.get_char(i)) {
            return false;
        }
        i += 1;
    }
    true
}

/// The lyric text to embed: the word-timed lyrics when they are not blank, else the plain
/// lyrics when they are not blank, else none.
pub open spec fn chosen_lyric(lyric: Option<LyricData>) -> Option<Seq<char>> {
    match lyric {
        Some(l) => match l.elrc {
            Some(e) if !is_blank(e@) => Some(e@),
            _ => match l.lrc {
                Some(p) if !is_blank(p@) => Some(p@),
                _ => None,
            },
        },
        None => None,
    }
}

/// Chooses the lyric text to embed.
pub fn select_lyric(lyric: Option<LyricData>) -> (r: Option<String>)
    ensures
        match r {
            Some(s) => chosen_lyric(lyric) == Some(s@),
            None => chosen_lyric(lyric) is None,
        },
{
    match lyric {
        Some(l) => {
            let ghost l0 = l;
            let LyricData { elrc, lrc } = l;
            match elrc {
                Some(e) => {
                    if !blank(e.as_str()) {
                        return Some(e);
                    }
                },
                None => {},
            }
            match lrc {
                Some(p) => {
                    if !blank(p.as_str()) {
                        Some(p)
                    } else {
                        None
                    }
                },
                None => None,
            }
        },
        None => None,
    }
}

/// The tag edits for a downloaded song. The title, artist and album items are always
/// cleared and then written when the value is given; the lyrics item is replaced only when
/// lyrics are given; the front covers are replaced when a cover image is given.
pub struct TagPlan {
    pub title: Option<String>,
    pub artist: Option<String>,
    pub album: Option<String>,
    pub lyrics: Option<String>,
    pub cover: Option<Vec<u8>>,
}

/// `s` when it is not empty.
fn non_empty(s: &str) -> (r: Option<String>)
    ensures
        match r {
            Some(x) => s@.len() > 0 && x@ == s@,
            None => s@.len() == 0,
        },
{
    if s.is_empty() {
        None
    } else {
        Some(owned(s))
    }
}

/// The tag edits for a song, or none when there are neither lyrics nor a cover to write
/// (the file is then left untouched).
pub fn plan_tags(
    song_title: &str,
    song_artist: &str,
    song_album: &str,
    lyric_text: Option<String>,
    cover: Option<Vec<u8>>,
) -> (r: Option<TagPlan>)
    ensures
        r is None <==> (lyric_text is None && cover is None),
        r matches Some(p) ==> {
            &&& (p.title matches Some(t) ==> t@ == song_title@) && (p.title is None <==> song_title@.len() == 0)
            &&& (p.artist matches Some(a) ==> a@ == song_artist@) && (p.artist is None <==> song_artist@.len() == 0)
            &&& (p.album matches Some(a) ==> a@ == song_album@) && (p.album is None <==> song_album@.len() == 0)
            &&& p.lyrics == lyric_text
            &&& p.cover == cover
        },
{
    if lyric_text.is_none() && cover.is_none() {
        return None;
    }
    Some(TagPlan {
        title: non_empty(song_title),
        artist: non_empty(song_artist),
        album: non_empty(song_album),
        lyrics: lyric_text,
        cover,
    })
}

/// The text of an optional string.
pub open spec fn opt_text(s: Option<String>) -> Option<Seq<char>> {
    match s {
        Some(t) => Some(t@),
        None => None,
    }
}

/// The items after `field` is set to `value`: every item of `field` is gone, and
/// `(field, value)` is appended when a value is given and the tag's format can hold the field.
pub open spec fn with_field(
    items: Seq<(Option<TagField>, Option<Seq<char>>)>,
    accepts: Set<TagField>,
    field: TagField,
    value: Option<Seq<char>>,
) -> Seq<(Option<TagField>, Option<Seq<char>>)> {
    let kept = items.filter(not_field(field));
    match value {
        Some(v) => if accepts.contains(field) {
            kept.push((Some(field), Some(v)))
        } else {
            kept
        },
        None => kept,
    }
}

/// The text items after the plan: title, artist and album set to the plan's values (cleared
/// when it has none), then the lyrics set when the plan has lyrics.
pub open spec fn planned_items(
    items: Seq<(Option<TagField>, Option<Seq<char>>)>,
    accepts: Set<TagField>,
    plan: TagPlan,
) -> Seq<(Option<TagField>, Option<Seq<char>>)> {
    let a = with_field(items, accepts, TagField::Title, opt_text(plan.title));
    let b = with_field(a, accepts, TagField::Artist, opt_text(plan.artist));
    let c = with_field(b, accepts, TagField::Album, opt_text(plan.album));
    match plan.lyrics {
        Some(l) => with_field(c, accepts, TagField::Lyrics, Some(l@)),
        None => c,
    }
}

/// The pictures after the plan: with a cover image, every front cover is replaced by it,
/// labelled JPEG.
pub open spec fn planned_pictures(pictures: Seq<(bool, bool, Seq<u8>)>, plan: TagPlan) -> Seq<(bool, bool, Seq<u8>)> {
    match plan.cover {
        Some(data) => pictures.filter(not_front_cover()).push((true, true, data@)),
        None => pictures,
    }
}

/// The text the plan gives `field` (for the lyrics: none when the plan leaves them alone).
pub open spec fn plan_text(plan: TagPlan, field: TagField) -> Option<Seq<char>> {
    match field {
        TagField::Title => opt_text(plan.title),
        TagField::Artist => opt_text(plan.artist),
        TagField::Album => opt_text(plan.album),
        TagField::Lyrics => opt_text(plan.lyrics),
    }
}

/// What filtering keeps, seen through `contains`.
proof fn lemma_filter_contains_iff<A>(s: Seq<A>, pred: spec_fn(A) -> bool, x: A)
    ensures
        s.filter(pred).contains(x) <==> (s.contains(x) && pred(x)),
{
    broadcast use vstd::seq_lib::group_filter_ensures;
    if s.filter(pred).contains(x) {
        s.lemma_filter_contains_rev(pred, x);
        let i = choose|i: int| 0 <= i < s.filter(pred).len() && s.filter(pred)[i] == x;
        assert(pred(s.filter(pred)[i]));
    }
    if s.contains(x) && pred(x) {
        let i = choose|i: int| 0 <= i < s.len() && s[i] == x;
        s.lemma_filter_contains(pred, i);
    }
}

/// What appending keeps, seen through `contains`.
proof fn lemma_push_contains<A>(s: Seq<A>, y: A, x: A)
    ensures
        s.push(y).contains(x) <==> (s.contains(x) || x == y),
{
    if s.push(y).contains(x) {
        let i = choose|i: int| 0 <= i < s.push(y).len() && s.push(y)[i] == x;
        if i < s.len() {
            assert(s[i] == x);
        }
    }
    if s.contains(x) {
        let i = choose|i: int| 0 <= i < s.len() && s[i] == x;
        assert(s.push(y)[i] == x);
    }
    if x == y {
        assert(s.push(y)[s.len() as int] == x);
    }
}

/// Setting one field: afterwards its only item is the value set (when one was given and can
/// be held), the value is there, and the items of other fields are those there were.
proof fn lemma_with_field(
    items: Seq<(Option<TagField>, Option<Seq<char>>)>,
    accepts: Set<TagField>,
    field: TagField,
    value: Option<Seq<char>>,
    x: (Option<TagField>, Option<Seq<char>>),
)
    ensures
        with_field(items, accepts, field, value).contains(x) && x.0 == Some(field) ==> value is Some
            && accepts.contains(field) && x == (Some(field), value),
        x.0 != Some(field) ==> (with_field(items, accepts, field, value).contains(x) <==> items.contains(x)),
        value is Some && accepts.contains(field) ==> with_field(items, accepts, field, value).contains(
            (Some(field), value),
        ),
{
    let kept = items.filter(not_field(field));
    lemma_filter_contains_iff(items, not_field(field), x);
    match value {
        Some(v) => {
            if accepts.contains(field) {
                lemma_push_contains(kept, (Some(field), Some(v)), x);
                lemma_push_contains(kept, (Some(field), Some(v)), (Some(field), Some(v)));
            }
        },
        None => {},
    }
}

/// Tagging a song rewrites exactly its fields. Afterwards each item of a field holds the
/// value the plan gives that field (title, artist and album are cleared when the plan has no
/// value; lyrics are left alone when the plan has none); each value the plan gives is there
/// when the tag's format can hold the field; and the items of other keys are those there were.
pub proof fn lemma_planned_items(
    items: Seq<(Option<TagField>, Option<Seq<char>>)>,
    accepts: Set<TagField>,
    plan: TagPlan,
    field: TagField,
    x: (Option<TagField>, Option<Seq<char>>),
)
    ensures
        planned_items(items, accepts, plan).contains(x) && x.0 == Some(field) ==> {
            ||| (plan_text(plan, field) is Some && accepts.contains(field) && x == (Some(field), plan_text(plan, field)))
            ||| (field is Lyrics && plan.lyrics is None && items.contains(x))
        },
        plan_text(plan, field) is Some && accepts.contains(field) ==> planned_items(items, accepts, plan).contains(
            (Some(field), plan_text(plan, field)),
        ),
        x.0 is None ==> (planned_items(items, accepts, plan).contains(x) <==> items.contains(x)),
{
    let a = with_field(items, accepts, TagField::Title, opt_text(plan.title));
    let b = with_field(a, accepts, TagField::Artist, opt_text(plan.artist));
    let c = with_field(b, accepts, TagField::Album, opt_text(plan.album));
    let y = (Some(field), plan_text(plan, field));
    lemma_with_field(items, accepts, TagField::Title, opt_text(plan.title), x);
    lemma_with_field(a, accepts, TagField::Artist, opt_text(plan.artist), x);
    lemma_with_field(b, accepts, TagField::Album, opt_text(plan.album), x);
    lemma_with_field(items, accepts, TagField::Title, opt_text(plan.title), y);
    lemma_with_field(a, accepts, TagField::Artist, opt_text(plan.artist), y);
    lemma_with_field(b, accepts, TagField::Album, opt_text(plan.album), y);
    match plan.lyrics {
        Some(l) => {
            lemma_with_field(c, accepts, TagField::Lyrics, Some(l@), x);
            lemma_with_field(c, accepts, TagField::Lyrics, Some(l@), y);
        },
        None => {},
    }
}

/// With a cover image, the tag ends up with exactly one front cover, the new image labelled
/// JPEG, and its other pictures kept; without one, the pictures stay as they were.
pub proof fn lemma_planned_pictures(pictures: Seq<(bool, bool, Seq<u8>)>, plan: TagPlan, x: (bool, bool, Seq<u8>))
    ensures
        plan.cover matches Some(d) ==> {
            &&& planned_pictures(pictures, plan).contains((true, true, d@))
            &&& (planned_pictures(pictures, plan).contains(x) && x.0 ==> x == (true, true, d@))
            &&& (!x.0 ==> (planned_pictures(pictures, plan).contains(x) <==> pictures.contains(x)))
            &&& planned_pictures(pictures, plan).filter(|p: (bool, bool, Seq<u8>)| p.0).len() == 1
        },
        plan.cover is None ==> planned_pictures(pictures, plan) == pictures,
{
    match plan.cover {
        Some(d) => {
            let kept = pictures.filter(not_front_cover());
            lemma_filter_contains_iff(pictures, not_front_cover(), x);
            lemma_push_contains(kept, (true, true, d@), x);
            lemma_push_contains(kept, (true, true, d@), (true, true, d@));
            let front = |p: (bool, bool, Seq<u8>)| p.0;
            assert(kept.filter(front).len() == 0) by {
                broadcast use vstd::seq_lib::group_filter_ensures;
                if kept.filter(front).len() > 0 {
                    let k = kept.filter(front)[0];
                    assert(front(k));
                    assert(kept.filter(front).contains(k));
                    lemma_filter_contains_iff(kept, front, k);
                    lemma_filter_contains_iff(pictures, not_front_cover(), k);
                }
            }
            assert(kept.push((true, true, d@)).filter(front) == kept.filter(front).push((true, true, d@))) by {
                reveal(Seq::filter);
                assert(kept.push((true, true, d@)).drop_last() =~= kept);
            }
        },
        None => {},
    }
}

/// Filtering twice keeps what filtering once keeps.
pub proof fn lemma_filter_twice<A>(s: Seq<A>, pred: spec_fn(A) -> bool)
    ensures
        s.filter(pred).filter(pred) == s.filter(pred),
    decreases s.len(),
{
    reveal(Seq::filter);
    if s.len() > 0 {
        lemma_filter_twice(s.drop_last(), pred);
        let f = s.drop_last().filter(pred);
        if pred(s.last()) {
            assert(f.push(s.last()).drop_last() =~= f);
        }
    }
}

/// Sets `field` of `tag` to `value`: clears it, then writes the value when there is one.
fn set_field(tag: &mut Tag, field: TagField, value: Option<String>)
    ensures
        tag_text_items(*final(tag)) == with_field(tag_text_items(*old(tag)), tag_accepts(*old(tag)), field, opt_text(value)),
        tag_pictures(*final(tag)) == tag_pictures(*old(tag)),
        tag_accepts(*final(tag)) == tag_accepts(*old(tag)),
{
    tag_remove_field(tag, field);
    match value {
        Some(v) => {
            let _ = tag_insert_text(tag, field, v);
            proof {
                lemma_filter_twice(tag_text_items(*old(tag)), not_field(field));
            }
        },
        None => {},
    }
}

/// Writes the planned title, artist, album, lyrics and cover into `tag`.
pub fn apply_tag_plan(tag: &mut Tag, plan: TagPlan)
    ensures
        tag_text_items(*final(tag)) == planned_items(tag_text_items(*old(tag)), tag_accepts(*old(tag)), plan),
        tag_pictures(*final(tag)) == planned_pictures(tag_pictures(*old(tag)), plan),
        tag_accepts(*final(tag)) == tag_accepts(*old(tag)),
{
    let ghost p = plan;
    let TagPlan { title, artist, album, lyrics, cover } = plan;
    set_field(tag, TagField::Title, title);
    set_field(tag, TagField::Artist, artist);
    set_field(tag, TagField::Album, album);
    match lyrics {
        Some(l) => set_field(tag, TagField::Lyrics, Some(l)),
        None => {},
    }
    match cover {
        Some(data) => {
            tag_remove_front_covers(tag);
            tag_push_jpeg_front_cover(tag, data);
        },
        None => {},
    }
}

/// The tag formats of a song file once prepared for tagging: its ID3v1 tag taken out, then
/// an empty tag of the primary format appended when there is none and the file supports it.
pub open spec fn prepared_formats(formats: Seq<TagFormat>, primary: TagFormat, supported: Set<TagFormat>) -> Seq<TagFormat> {
    let f = without_first(formats, TagFormat::Id3v1);
    if f.contains(primary) {
        f
    } else if supported.contains(primary) {
        f.push(primary)
    } else {
        f
    }
}

/// Prepares a song file for tagging. Its ID3v1 tag is taken out: ID3v1 fields are cut at
/// 30 bytes, which can split a multi-byte character, while the primary tag carries every
/// field. When the file has no tag of its primary format, an empty one is added; a file of a
/// custom type (whose formats lofty asks of a registered resolver) gets none. Returns whether
/// an ID3v1 tag was taken out.
pub fn prepare_primary_tag(file: &mut TaggedFile) -> (removed_id3v1: bool)
    ensures
        removed_id3v1 == file_tag_formats(*old(file)).contains(TagFormat::Id3v1),
        !file_custom_type(*old(file)) ==> file_tag_formats(*final(file)) == prepared_formats(
            file_tag_formats(*old(file)),
            file_primary_format(*old(file)),
            file_supported_formats(*old(file)),
        ),
        file_custom_type(*old(file)) ==> file_tag_formats(*final(file)) == without_first(
            file_tag_formats(*old(file)),
            TagFormat::Id3v1,
        ),
        file_primary_format(*final(file)) == file_primary_format(*old(file)),
        file_supported_formats(*final(file)) == file_supported_formats(*old(file)),
{
    let removed = file_remove_tag(file, TagFormat::Id3v1);
    proof {
        lemma_first_position(file_tag_formats(*old(file)), TagFormat::Id3v1);
    }
    if !file_has_custom_type(file) {
        match file_primary_tag_type(file) {
            Some(primary) => {
                if !file_contains_tag_type(file, primary) {
                    proof {
                        lemma_first_position(file_tag_formats(*file), primary);
                    }
                    let _ = file_insert_tag(file, new_tag(primary));
                }
            },
            None => {},
        }
    }
    removed.is_some()
}

/// After preparation, a file whose type supports its primary format holds a tag of it; and
/// when the file held each format at most once, no ID3v1 tag is left (unless ID3v1 is the
/// primary format).
pub proof fn lemma_prepared_formats(formats: Seq<TagFormat>, primary: TagFormat, supported: Set<TagFormat>)
    ensures
        supported.contains(primary) ==> prepared_formats(formats, primary, supported).contains(primary),
        formats.no_duplicates() && primary != TagFormat::Id3v1 ==> !prepared_formats(
            formats,
            primary,
            supported,
        ).contains(TagFormat::Id3v1),
{
    let f = without_first(formats, TagFormat::Id3v1);
    let r = prepared_formats(formats, primary, supported);
    if supported.contains(primary) && !f.contains(primary) {
        assert(r[r.len() - 1] == primary);
    }
    if formats.no_duplicates() && primary != TagFormat::Id3v1 {
        lemma_first_position(formats, TagFormat::Id3v1);
        let p = first_position(formats, TagFormat::Id3v1);
        if f.contains(TagFormat::Id3v1) {
            let i = choose|i: int| 0 <= i < f.len() && f[i] == TagFormat::Id3v1;
            if p < formats.len() {
                if i < p {
                    assert(f[i] == formats[i]);
                } else {
                    assert(f[i] == formats[i + 1]);
                }
            } else {
                assert(f[i] == formats[i]);
            }
            assert(false);
        }
        if r.contains(TagFormat::Id3v1) {
            let i = choose|i: int| 0 <= i < r.len() && r[i] == TagFormat::Id3v1;
            if i < f.len() {
                assert(f[i] == TagFormat::Id3v1);
            }
        }
    }
}

} // verus!
