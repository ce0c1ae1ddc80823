//! The audio-tag items of lofty that song tagging uses, with what their source shows.
//!
//! A song file (`TaggedFile`) holds a list of tags, each of one format; a `Tag` holds text
//! items and pictures. The library sees a file through the formats of its tags, and a tag
//! through its items of the four fields that it writes, its pictures, and the fields its
//! format can hold.

use vstd::prelude::*;
use lofty::file::{AudioFile, FileType, TaggedFile, TaggedFileExt};
use lofty::picture::{MimeType, Picture, PictureType};
use lofty::tag::{ItemKey, Tag, TagType};

verus! {

/// lofty's `Tag`, which Verus sees only through the names below.
#[verifier::external_type_specification]
#[verifier::external_body]
pub struct ExTag(lofty::tag::Tag);

/// lofty's `TaggedFile`, which Verus sees only through the names below.
#[verifier::external_type_specification]
#[verifier::external_body]
pub struct ExTaggedFile(lofty::file::TaggedFile);

/// The tag formats of lofty 0.22 (`TagType`), one for one.
#[derive(Clone, Copy, Debug)]
pub enum TagFormat {
    Ape,
    Id3v1,
    Id3v2,
    Mp4Ilst,
    VorbisComments,
    RiffInfo,
    AiffText,
}

/// The tag fields the library writes: `TrackTitle`, `TrackArtist`, `AlbumTitle` and
/// `Lyrics` among lofty's item keys.
#[derive(Clone, Copy, Debug)]
pub enum TagField {
    Title,
    Artist,
    Album,
    Lyrics,
}

/// The text items of `tag`, in order: the field of each item's key (none for a key other
/// than the four) and its text (none for a value that is not text).
pub uninterp spec fn tag_text_items(tag: Tag) -> Seq<(Option<TagField>, Option<Seq<char>>)>;

/// The pictures of `tag`, in order: whether each is a front cover, whether its MIME type is
/// JPEG, and its data.
pub uninterp spec fn tag_pictures(tag: Tag) -> Seq<(bool, bool, Seq<u8>)>;

/// The fields whose keys the format of `tag` can hold (those `Tag::insert` accepts).
pub uninterp spec fn tag_accepts(tag: Tag) -> Set<TagField>;

/// The format of `tag`.
pub uninterp spec fn tag_format(tag: Tag) -> TagFormat;

/// The formats of the tags of `file`, in order.
pub uninterp spec fn file_tag_formats(file: TaggedFile) -> Seq<TagFormat>;

/// The primary tag format of the type of `file` (it depends on the file's type alone).
pub uninterp spec fn file_primary_format(file: TaggedFile) -> TagFormat;

/// Whether the type of `file` is a custom one (`FileType::Custom`), whose primary format and
/// supported formats lofty asks of a resolver registered under its name.
pub uninterp spec fn file_custom_type(file: TaggedFile) -> bool;

/// The tag formats the type of `file` supports (they depend on the file's type alone).
pub uninterp spec fn file_supported_formats(file: TaggedFile) -> Set<TagFormat>;

/// Keeps the items whose field is not `field`.
pub open spec fn not_field(field: TagField) -> spec_fn((Option<TagField>, Option<Seq<char>>)) -> bool {
    |item: (Option<TagField>, Option<Seq<char>>)| item.0 != Some(field)
}

/// Keeps the pictures that are not front covers.
pub open spec fn not_front_cover() -> spec_fn((bool, bool, Seq<u8>)) -> bool {
    |picture: (bool, bool, Seq<u8>)| !picture.0
}

/// Where `format` first occurs in `formats` (`formats.len()` when it does not).
pub open spec fn first_position(formats: Seq<TagFormat>, format: TagFormat) -> int
    decreases formats.len(),
{
    if formats.len() == 0 {
        0
    } else if formats[0] == format {
        0
    } else {
        1 + first_position(formats.drop_first(), format)
    }
}

/// `formats` without the first occurrence of `format` (unchanged when there is none).
pub open spec fn without_first(formats: Seq<TagFormat>, format: TagFormat) -> Seq<TagFormat> {
    let p = first_position(formats, format);
    if p < formats.len() {
        formats.remove(p)
    } else {
        formats
    }
}

/// Where the first occurrence stands: no earlier element is `format`, and the element
/// there is `format` when there is one.
pub proof fn lemma_first_position(formats: Seq<TagFormat>, format: TagFormat)
    ensures
        0 <= first_position(formats, format) <= formats.len(),
        first_position(formats, format) < formats.len() ==> formats[first_position(formats, format)] == format,
        forall|j: int| 0 <= j < first_position(formats, format) ==> formats[j] != format,
        formats.contains(format) <==> first_position(formats, format) < formats.len(),
    decreases formats.len(),
{
    if formats.len() > 0 && formats[0] != format {
        let rest = formats.drop_first();
        lemma_first_position(rest, format);
        assert forall|j: int| 0 <= j < first_position(formats, format) implies formats[j] != format by {
            if j > 0 {
                assert(formats[j] == rest[j - 1]);
            }
        }
        if formats.contains(format) {
            let i = choose|i: int| 0 <= i < formats.len() && formats[i] == format;
            assert(rest[i - 1] == format);
        }
        if first_position(formats, format) < formats.len() {
            assert(formats[first_position(formats, format)] == format);
        }
    }
}

/// Removes every item of `field` from `tag` (`Tag::remove_key`).
#[verifier::external_body]
pub(crate) fn tag_remove_field(tag: &mut Tag, field: TagField)
    ensures
        tag_text_items(*final(tag)) == tag_text_items(*old(tag)).filter(not_field(field)),
        tag_pictures(*final(tag)) == tag_pictures(*old(tag)),
        tag_accepts(*final(tag)) == tag_accepts(*old(tag)),
{
    let key = match field {
        TagField::Title => ItemKey::TrackTitle,
        TagField::Artist => ItemKey::TrackArtist,
        TagField::Album => ItemKey::AlbumTitle,
        TagField::Lyrics => ItemKey::Lyrics,
    };
    tag.remove_key(&key);
}

/// Sets the text of `field` (`Tag::insert_text`): when the tag's format can hold the field,
/// every item of the field is removed and the new item appended; otherwise nothing changes.
/// Returns whether the item was inserted.
#[verifier::external_body]
pub(crate) fn tag_insert_text(tag: &mut Tag, field: TagField, text: String) -> (r: bool)
    ensures
        r == tag_accepts(*old(tag)).contains(field),
        r ==> tag_text_items(*final(tag)) == tag_text_items(*old(tag)).filter(not_field(field)).push(
            (Some(field), Some(text@)),
        ),
        !r ==> tag_text_items(*final(tag)) == tag_text_items(*old(tag)),
        tag_pictures(*final(tag)) == tag_pictures(*old(tag)),
        tag_accepts(*final(tag)) == tag_accepts(*old(tag)),
{
    let key = match field {
        TagField::Title => ItemKey::TrackTitle,
        TagField::Artist => ItemKey::TrackArtist,
        TagField::Album => ItemKey::AlbumTitle,
        TagField::Lyrics => ItemKey::Lyrics,
    };
    tag.insert_text(key, text)
}

/// Removes every front cover from `tag` (`Tag::remove_picture_type` with `CoverFront`).
#[verifier::external_body]
pub(crate) fn tag_remove_front_covers(tag: &mut Tag)
    ensures
        tag_pictures(*final(tag)) == tag_pictures(*old(tag)).filter(not_front_cover()),
        tag_text_items(*final(tag)) == tag_text_items(*old(tag)),
        tag_accepts(*final(tag)) == tag_accepts(*old(tag)),
{
    tag.remove_picture_type(PictureType::CoverFront);
}

/// Appends `data` to `tag` as a front cover labelled JPEG (`Tag::push_picture` of the
/// picture that `Picture::new_unchecked` makes, which keeps the data as given).
#[verifier::external_body]
pub(crate) fn tag_push_jpeg_front_cover(tag: &mut Tag, data: Vec<u8>)
    ensures
        tag_pictures(*final(tag)) == tag_pictures(*old(tag)).push((true, true, data@)),
        tag_text_items(*final(tag)) == tag_text_items(*old(tag)),
        tag_accepts(*final(tag)) == tag_accepts(*old(tag)),
{
    tag.push_picture(Picture::new_unchecked(PictureType::CoverFront, Some(MimeType::Jpeg), None, data));
}

/// An empty tag of `format` (`Tag::new`).
#[verifier::external_body]
pub(crate) fn new_tag(format: TagFormat) -> (r: Tag)
    ensures
        tag_format(r) == format,
        tag_text_items(r) == Seq::<(Option<TagField>, Option<Seq<char>>)>::empty(),
        tag_pictures(r) == Seq::<(bool, bool, Seq<u8>)>::empty(),
{
    Tag::new(match format {
        TagFormat::Ape => TagType::Ape,
        TagFormat::Id3v1 => TagType::Id3v1,
        TagFormat::Id3v2 => TagType::Id3v2,
        TagFormat::Mp4Ilst => TagType::Mp4Ilst,
        TagFormat::VorbisComments => TagType::VorbisComments,
        TagFormat::RiffInfo => TagType::RiffInfo,
        TagFormat::AiffText => TagType::AiffText,
    })
}

/// Takes the first tag of `format` out of `file` (`TaggedFileExt::remove`).
#[verifier::external_body]
pub(crate) fn file_remove_tag(file: &mut TaggedFile, format: TagFormat) -> (r: Option<Tag>)
    ensures
        file_tag_formats(*final(file)) == without_first(file_tag_formats(*old(file)), format),
        r is Some <==> first_position(file_tag_formats(*old(file)), format) < file_tag_formats(*old(file)).len(),
        file_primary_format(*final(file)) == file_primary_format(*old(file)),
        file_supported_formats(*final(file)) == file_supported_formats(*old(file)),
        file_custom_type(*final(file)) == file_custom_type(*old(file)),
{
    file.remove(match format {
        TagFormat::Ape => TagType::Ape,
        TagFormat::Id3v1 => TagType::Id3v1,
        TagFormat::Id3v2 => TagType::Id3v2,
        TagFormat::Mp4Ilst => TagType::Mp4Ilst,
        TagFormat::VorbisComments => TagType::VorbisComments,
        TagFormat::RiffInfo => TagType::RiffInfo,
        TagFormat::AiffText => TagType::AiffText,
    })
}

/// Whether the type of `file` is a custom one (`TaggedFileExt::file_type`, told apart as
/// `FileType::Custom`).
#[verifier::external_body]
pub(crate) fn file_has_custom_type(file: &TaggedFile) -> (r: bool)
    ensures
        r == file_custom_type(*file),
{
    matches!(file.file_type(), FileType::Custom(_))
}

/// The primary tag format of `file` (`TaggedFileExt::primary_tag_type`), for a file of one of
/// lofty's own types: for a custom type lofty asks a resolver registered under the type's
/// name, and panics when there is none, so custom types are left out. lofty 0.22 has exactly
/// the seven formats of `TagFormat`, so the conversion always succeeds.
#[verifier::external_body]
pub(crate) fn file_primary_tag_type(file: &TaggedFile) -> (r: Option<TagFormat>)
    requires
        !file_custom_type(*file),
    ensures
        r == Some(file_primary_format(*file)),
{
    match file.primary_tag_type() {
        TagType::Ape => Some(TagFormat::Ape),
        TagType::Id3v1 => Some(TagFormat::Id3v1),
        TagType::Id3v2 => Some(TagFormat::Id3v2),
        TagType::Mp4Ilst => Some(TagFormat::Mp4Ilst),
        TagType::VorbisComments => Some(TagFormat::VorbisComments),
        TagType::RiffInfo => Some(TagFormat::RiffInfo),
        TagType::AiffText => Some(TagFormat::AiffText),
        _ => None,
    }
}

/// Whether `file` holds a tag of `format` (`AudioFile::contains_tag_type`).
#[verifier::external_body]
pub(crate) fn file_contains_tag_type(file: &TaggedFile, format: TagFormat) -> (r: bool)
    ensures
        r == file_tag_formats(*file).contains(format),
{
    file.contains_tag_type(match format {
        TagFormat::Ape => TagType::Ape,
        TagFormat::Id3v1 => TagType::Id3v1,
        TagFormat::Id3v2 => TagType::Id3v2,
        TagFormat::Mp4Ilst => TagType::Mp4Ilst,
        TagFormat::VorbisComments => TagType::VorbisComments,
        TagFormat::RiffInfo => TagType::RiffInfo,
        TagFormat::AiffText => TagType::AiffText,
    })
}

/// Puts `tag` into `file` (`TaggedFileExt::insert_tag`): when the file supports the tag's
/// format, the first tag of that format is taken out (and returned) and `tag` appended;
/// otherwise nothing changes. Support of a custom file type is asked of a resolver, which
/// panics when none is registered, so custom types are left out.
#[verifier::external_body]
pub(crate) fn file_insert_tag(file: &mut TaggedFile, tag: Tag) -> (r: Option<Tag>)
    requires
        !file_custom_type(*old(file)),
    ensures
        r is Some <==> file_supported_formats(*old(file)).contains(tag_format(tag)) && first_position(
            file_tag_formats(*old(file)),
            tag_format(tag),
        ) < file_tag_formats(*old(file)).len(),
        file_supported_formats(*old(file)).contains(tag_format(tag)) ==> file_tag_formats(*final(file))
            == without_first(file_tag_formats(*old(file)), tag_format(tag)).push(tag_format(tag)),
        !file_supported_formats(*old(file)).contains(tag_format(tag)) ==> file_tag_formats(*final(file))
            == file_tag_formats(*old(file)),
        file_primary_format(*final(file)) == file_primary_format(*old(file)),
        file_supported_formats(*final(file)) == file_supported_formats(*old(file)),
        file_custom_type(*final(file)) == file_custom_type(*old(file)),
{
    file.insert_tag(tag)
}

} // verus!
