//! Where a download is saved: the directory and naming settings, and the final path.

use vstd::prelude::*;
use crate::ctx::AppCtx;
use crate::download::task::SongInfo;
use crate::json::{bool_value, decode_json, get_field, json_decode, str_value, JsonValue};
use crate::paths::{extension, is_absolute, join, spec_extension, spec_is_absolute, spec_join};
use crate::text::{append_str, contains_seq, contains_str, owned, str_eq};
use crate::utils::filename::{build_filename, spec_build_filename};

verus! {

/// The real extension of a decrypted file: `mgg` becomes `ogg`, `mflac` becomes `flac`,
/// any other extension stays as it is.
pub open spec fn decrypted_extension(ext: Seq<char>) -> Seq<char> {
    if ext == "mgg"@ {
        "ogg"@
    } else if ext == "mflac"@ {
        "flac"@
    } else {
        ext
    }
}

/// Mapping an extension twice gives the same as mapping it once: decrypted extensions are
/// never mapped again.
pub proof fn lemma_decrypted_extension_idempotent(ext: Seq<char>)
    ensures
        decrypted_extension(decrypted_extension(ext)) == decrypted_extension(ext),
{
    reveal_strlit("mgg");
    reveal_strlit("mflac");
    reveal_strlit("ogg");
    reveal_strlit("flac");
    assert("ogg"@[0] != "mgg"@[0]);
    assert("flac"@[0] != "mgg"@[0]);
    assert("ogg"@.len() != "mflac"@.len());
    assert("flac"@[0] != "mflac"@[0]);
}

/// Only the two encrypted formats are renamed: `mgg` becomes `ogg`, `mflac` becomes `flac`,
/// and every other extension is kept as it is.
pub proof fn lemma_decrypted_extension_keeps_others(ext: Seq<char>)
    ensures
        ext == "mgg"@ ==> decrypted_extension(ext) == "ogg"@,
        ext == "mflac"@ ==> decrypted_extension(ext) == "flac"@,
        ext != "mgg"@ && ext != "mflac"@ ==> decrypted_extension(ext) == ext,
{
    reveal_strlit("mgg");
    reveal_strlit("mflac");
    assert("mgg"@[1] != "mflac"@[1]);
}

/// Maps the extension of an encrypted file to the extension of the decrypted file.
pub fn map_decrypted_extension(ext: &str) -> (r: &str)
    ensures
        r@ == decrypted_extension(ext@),
        ext@ == "mgg"@ ==> r@ == "ogg"@,
        ext@ == "mflac"@ ==> r@ == "flac"@,
        ext@ != "mgg"@ && ext@ != "mflac"@ ==> r@ == ext@,
{
    proof {
        lemma_decrypted_extension_keeps_others(ext@);
    }
    if str_eq(ext, "mgg") {
        "ogg"
    } else if str_eq(ext, "mflac") {
        "flac"
    } else {
        ext
    }
}

/// The extension of the file that the quality's file name names (`flac` when it has none).
pub open spec fn quality_extension(quality_filename: Seq<char>) -> Seq<char> {
    match spec_extension(quality_filename) {
        Some(e) => e,
        None => "flac"@,
    }
}

/// The file name of a download: the name built from the template, a dot, and the
/// decrypted extension of the quality's file name.
pub open spec fn download_file_name(template: Seq<char>, song: SongInfo, quality_filename: Seq<char>) -> Seq<char> {
    spec_build_filename(template, song) + "."@ + decrypted_extension(quality_extension(quality_filename))
}

/// Whether the download goes to a storage-access-framework folder: the directory setting
/// is `saf://`, the program runs on Android, and a folder URI is set.
pub open spec fn uses_saf(dir_setting: Seq<char>, saf_uri_setting: Option<Seq<char>>, on_android: bool) -> bool {
    dir_setting == "saf://"@ && on_android && saf_uri_setting is Some
}

/// Resolves where a download is saved.
///
/// Returns (whether the storage-access framework is used, the file name in that case or
/// else the full path, the folder URI in that case). `on_android` tells whether the program
/// was built for Android.
pub fn resolve_download_path(
    dir_setting: &str,
    template_setting: &str,
    saf_uri_setting: Option<&str>,
    song_info: &SongInfo,
    quality_filename: &str,
    on_android: bool,
) -> (r: (bool, String, Option<String>))
    ensures
        r.0 == uses_saf(dir_setting@, match saf_uri_setting { Some(u) => Some(u@), None => None }, on_android),
        r.0 ==> r.1@ == download_file_name(template_setting@, *song_info, quality_filename@),
        r.0 ==> (r.2 matches Some(u) && saf_uri_setting matches Some(s) && u@ == s@),
        !r.0 ==> r.1@ == spec_join(dir_setting@, download_file_name(template_setting@, *song_info, quality_filename@)),
        !r.0 ==> r.2 is None,
{
    let fname = build_filename(template_setting, song_info);
    let raw = extension(quality_filename);
    let raw_ext = match &raw {
        Some(e) => e.as_str(),
        None => "flac",
    };
    let ext = map_decrypted_extension(raw_ext);
    let mut file_name = fname;
    append_str(&mut file_name, ".");
    append_str(&mut file_name, ext);
    let is_saf_dir = str_eq(dir_setting, "saf://");
    if is_saf_dir && on_android && saf_uri_setting.is_some() {
        let uri = match saf_uri_setting {
            Some(u) => owned(u),
            None => String::new(),
        };
        (true, file_name, Some(uri))
    } else {
        let full_path = join(dir_setting, file_name.as_str());
        (false, full_path, None)
    }
}

/// The member `key` of the decoded settings (nothing when the settings did not decode).
pub open spec fn setting(settings: Option<JsonValue>, key: Seq<char>) -> Option<JsonValue> {
    match settings {
        Some(v) => get_field(v, key),
        None => None,
    }
}

/// The string setting `key` when it is set to a non-empty string.
pub open spec fn non_empty_setting(settings: Option<JsonValue>, key: Seq<char>) -> Option<Seq<char>> {
    match str_value(setting(settings, key)) {
        Some(s) => if s.len() > 0 { Some(s) } else { None },
        None => None,
    }
}

/// A directory inside an Android application's private storage.
pub open spec fn is_private_app_dir(dir: Seq<char>) -> bool {
    contains_seq(dir, "/data/user/0/"@) || contains_seq(dir, "/data/data/"@)
}

/// The download directory the settings give, always an absolute path when the default
/// directory is one: `downloadDir` when it is a non-empty string that is an absolute path and
/// not an Android private directory; the default directory otherwise.
pub open spec fn settings_download_dir(default_dir: Seq<char>, settings: Option<JsonValue>) -> Seq<char> {
    let dir = match non_empty_setting(settings, "downloadDir"@) {
        Some(d) => d,
        None => default_dir,
    };
    if is_private_app_dir(dir) {
        default_dir
    } else if spec_is_absolute(dir) {
        dir
    } else {
        default_dir
    }
}

/// The download directory is the default directory or the stored `downloadDir`; when the
/// default directory is an absolute path outside Android private storage, so is the
/// download directory.
pub proof fn lemma_download_dir_is_usable(default_dir: Seq<char>, settings: Option<JsonValue>)
    ensures
        ({
            let dir = settings_download_dir(default_dir, settings);
            &&& (dir == default_dir || non_empty_setting(settings, "downloadDir"@) == Some(dir))
            &&& (spec_is_absolute(default_dir) && !is_private_app_dir(default_dir) ==> spec_is_absolute(dir)
                && !is_private_app_dir(dir))
        }),
{
}

/// The naming template the settings give (`{song} - {artist}` when none is set).
pub open spec fn settings_template(settings: Option<JsonValue>) -> Seq<char> {
    match str_value(setting(settings, "namingTemplate"@)) {
        Some(t) => t,
        None => "{song} - {artist}"@,
    }
}

/// The boolean setting `key` (false when it is not set to a boolean).
pub open spec fn settings_flag(settings: Option<JsonValue>, key: Seq<char>) -> bool {
    match bool_value(setting(settings, key)) {
        Some(b) => b,
        None => false,
    }
}

/// A flag reads as the JSON boolean it is set to; a flag that is missing, or set to anything
/// but a boolean, reads as off.
pub proof fn lemma_flag_reads_its_boolean(settings: JsonValue, key: Seq<char>)
    ensures
        get_field(settings, key) == Some(JsonValue::Bool(true)) ==> settings_flag(Some(settings), key),
        get_field(settings, key) == Some(JsonValue::Bool(false)) ==> !settings_flag(Some(settings), key),
        !(get_field(settings, key) matches Some(JsonValue::Bool(_))) ==> !settings_flag(Some(settings), key),
        !settings_flag(None, key),
{
}

/// The non-empty string setting `key`, copied.
fn non_empty_string_setting(settings: &Option<JsonValue>, key: &str) -> (r: Option<String>)
    ensures
        match r {
            Some(s) => non_empty_setting(*settings, key@) == Some(s@),
            None => non_empty_setting(*settings, key@) is None,
        },
{
    match settings {
        Some(v) => match v.get(key) {
            Some(x) => match x.as_str() {
                Some(s) => if s.is_empty() {
                    None
                } else {
                    Some(owned(s))
                },
                None => None,
            },
            None => None,
        },
        None => None,
    }
}

/// The boolean setting `key`, false when it is not set to a boolean.
fn flag_setting(settings: &Option<JsonValue>, key: &str) -> (r: bool)
    ensures
        r == settings_flag(*settings, key@),
{
    match settings {
        Some(v) => match v.get(key) {
            Some(x) => match x.as_bool() {
                Some(b) => b,
                None => false,
            },
            None => false,
        },
        None => false,
    }
}

/// The download settings as `settings_text`, the stored `settings` entry, gives them:
/// (download directory, naming template, folder URI, whether to write song tags, whether to
/// save a separate lyric file). Text that is not JSON gives the defaults; the default
/// directory is the context's download directory.
pub fn get_download_settings(ctx: &AppCtx, settings_text: &str) -> (r: (
    String,
    String,
    Option<String>,
    bool,
    bool,
))
    ensures
        r.0@ == settings_download_dir(ctx.download_dir_view(), json_decode(settings_text@)),
        r.1@ == settings_template(json_decode(settings_text@)),
        match r.2 {
            Some(u) => non_empty_setting(json_decode(settings_text@), "safFolderUri"@) == Some(u@),
            None => non_empty_setting(json_decode(settings_text@), "safFolderUri"@) is None,
        },
        r.3 == settings_flag(json_decode(settings_text@), "writeMetadata"@),
        r.4 == settings_flag(json_decode(settings_text@), "downloadLrc"@),
{
    let settings = decode_json(settings_text);
    download_settings(ctx, &settings)
}

/// The download settings that the decoded `settings` give (nothing when they did not
/// decode), as `get_download_settings` returns them.
pub fn download_settings(ctx: &AppCtx, settings: &Option<JsonValue>) -> (r: (
    String,
    String,
    Option<String>,
    bool,
    bool,
))
    ensures
        r.0@ == settings_download_dir(ctx.download_dir_view(), *settings),
        r.1@ == settings_template(*settings),
        match r.2 {
            Some(u) => non_empty_setting(*settings, "safFolderUri"@) == Some(u@),
            None => non_empty_setting(*settings, "safFolderUri"@) is None,
        },
        r.3 == settings_flag(*settings, "writeMetadata"@),
        r.4 == settings_flag(*settings, "downloadLrc"@),
        (*settings matches Some(v) && get_field(v, "writeMetadata"@) == Some(JsonValue::Bool(false))) ==> !r.3,
        (*settings matches Some(v) && get_field(v, "writeMetadata"@) == Some(JsonValue::Bool(true))) ==> r.3,
        (*settings matches Some(v) && get_field(v, "downloadLrc"@) == Some(JsonValue::Bool(false))) ==> !r.4,
        (*settings matches Some(v) && get_field(v, "downloadLrc"@) == Some(JsonValue::Bool(true))) ==> r.4,
{
    let default_dir = ctx.download_dir();
    let dir = match non_empty_string_setting(settings, "downloadDir") {
        Some(d) => d,
        None => owned(default_dir),
    };
    let dir = if contains_str(dir.as_str(), "/data/user/0/") || contains_str(dir.as_str(), "/data/data/") {
        owned(default_dir)
    } else if is_absolute(dir.as_str()) {
        dir
    } else {
        owned(default_dir)
    };
    let saf_folder_uri = non_empty_string_setting(settings, "safFolderUri");
    let template = match settings {
        Some(v) => match v.get("namingTemplate") {
            Some(x) => match x.as_str() {
                Some(t) => owned(t),
                None => owned("{song} - {artist}"),
            },
            None => owned("{song} - {artist}"),
        },
        None => owned("{song} - {artist}"),
    };
    let write_metadata_enabled = flag_setting(settings, "writeMetadata");
    let download_lrc_enabled = flag_setting(settings, "downloadLrc");
    (dir, template, saf_folder_uri, write_metadata_enabled, download_lrc_enabled)
}

} // verus!
