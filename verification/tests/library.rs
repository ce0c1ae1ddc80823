use hotdownloader::api::{
    content_disposition, invoke_envelope, parse_command, requested_file_path, service_info, Command,
};
use hotdownloader::commands::file_ops::{get_default_download_dir, get_default_download_dir_impl};
use hotdownloader::commands::history::{load_history, save_history};
use hotdownloader::commands::notify::{
    check_notification_permission, download_complete_notification, download_complete_payload,
    download_notification_event,
    request_notification_permission,
};
use hotdownloader::commands::settings::{
    load_settings, max_concurrent_of, max_concurrent_setting, save_settings,
};
use hotdownloader::commands::tasks::{
    check_download_path, load_tasks, save_tasks, summarize_removals, PathCheck, ProbeStep,
    RemoveTasksSummary,
};
use hotdownloader::ctx::{AppCtx, EventBus, EVENT_HISTORY_LIMIT};
use hotdownloader::download::task::SongInfo;
use hotdownloader::download::task_file::{open_download_file, OpenAction, OpenMode, OpenPhase};
use hotdownloader::download::task_lrc::lrc_file_path;
use hotdownloader::download::task_metadata::{
    apply_tag_plan, blank, plan_tags, prepare_primary_tag, select_lyric, LyricData,
};
use lofty::file::{FileType, TaggedFile, TaggedFileExt};
use lofty::picture::{MimeType, Picture, PictureType};
use lofty::properties::FileProperties;
use lofty::tag::{ItemKey, Tag, TagType};
use hotdownloader::download::task_path::{
    download_settings, get_download_settings, map_decrypted_extension, resolve_download_path,
};
use hotdownloader::json::{decode_json, JsonNumber, JsonValue};
use hotdownloader::paths::{extension, file_name, file_stem, is_absolute, join};
use std::path::Path;
use hotdownloader::storage::store_wrapper::{load_string, save_string};
use hotdownloader::utils::crypto::{decryption_enabled, wants_decryption};
use hotdownloader::utils::filename::build_filename;
use hotdownloader::utils::guid::{get_guid, guid_from_indices};

fn s(x: &str) -> String {
    x.to_string()
}

fn obj(entries: Vec<(&str, JsonValue)>) -> JsonValue {
    JsonValue::Object(entries.into_iter().map(|(k, v)| (k.to_string(), v)).collect())
}

fn song(title: &str, artist: &str, album: &str, quality: &str) -> SongInfo {
    SongInfo {
        title: s(title),
        artist: s(artist),
        album: s(album),
        quality: s(quality),
        cover_url: s(""),
    }
}

fn keys(v: &JsonValue) -> Vec<String> {
    match v {
        JsonValue::Object(e) => e.iter().map(|(k, _)| k.clone()).collect(),
        _ => panic!("not an object"),
    }
}

// ---------- store ----------

#[test]
fn save_then_load_gives_back_the_value() {
    let mut doc = JsonValue::empty_object();
    save_string(&mut doc, "settings", "{\"a\":1}");
    assert_eq!(load_string(&doc, "settings"), "{\"a\":1}");
}

#[test]
fn save_replaces_and_keeps_other_keys() {
    let mut doc = obj(vec![
        ("history", JsonValue::Str(s("h"))),
        ("tasks", JsonValue::Str(s("t"))),
    ]);
    save_string(&mut doc, "history", "h2");
    assert_eq!(load_string(&doc, "history"), "h2");
    assert_eq!(load_string(&doc, "tasks"), "t");
    assert_eq!(keys(&doc), vec![s("history"), s("tasks")]);
    save_string(&mut doc, "settings", "x");
    assert_eq!(keys(&doc), vec![s("history"), s("tasks"), s("settings")]);
}

#[test]
fn load_of_missing_or_non_string_is_empty() {
    let doc = obj(vec![
        ("settings", JsonValue::Number(JsonNumber::PosInt(5))),
        ("history", JsonValue::Null),
    ]);
    assert_eq!(load_string(&doc, "settings"), "");
    assert_eq!(load_string(&doc, "history"), "");
    assert_eq!(load_string(&doc, "tasks"), "");
    assert_eq!(load_string(&JsonValue::Array(vec![]), "tasks"), "");
}

#[test]
fn save_on_null_document_makes_an_object() {
    let mut doc = JsonValue::Null;
    save_string(&mut doc, "tasks", "[]");
    assert_eq!(keys(&doc), vec![s("tasks")]);
    assert_eq!(load_string(&doc, "tasks"), "[]");
}

#[test]
fn read_store_falls_back_to_empty_object() {
    let d = AppCtx::read_store(None);
    assert!(keys(&d).is_empty());
    let d = AppCtx::read_store(Some(JsonValue::Bool(true)));
    assert!(matches!(d, JsonValue::Bool(true)));
}

#[test]
fn context_loads_and_saves_against_the_read_document() {
    assert_eq!(AppCtx::load_string("", "settings"), "");
    assert_eq!(AppCtx::load_string("not json", "settings"), "");
    let doc = AppCtx::save_string("", "settings", "{}").unwrap();
    assert_eq!(keys(&doc), vec![s("settings")]);
    assert_eq!(load_string(&doc, "settings"), "{}");
    let doc = AppCtx::save_string(r#"{"history": "h"}"#, "tasks", "[1]").unwrap();
    assert_eq!(keys(&doc), vec![s("history"), s("tasks")]);
    assert_eq!(load_string(&doc, "history"), "h");
    assert_eq!(load_string(&doc, "tasks"), "[1]");
    assert_eq!(AppCtx::load_string(r#"{"tasks": "[2]", "n": 5}"#, "tasks"), "[2]");
    assert_eq!(AppCtx::load_string(r#""x""#, "tasks"), "");
    assert!(AppCtx::save_string("[1, 2]", "tasks", "x").is_none());
    assert!(AppCtx::save_string("null", "tasks", "x").is_some());
    assert!(matches!(AppCtx::decode_store("{bad"), JsonValue::Object(ref e) if e.is_empty()));
}

#[test]
fn json_text_is_decoded_into_the_model() {
    assert!(decode_json("{").is_none());
    let v = decode_json(r#"{"a": [1, -2, 1.5, "x", true, null], "b": {"c": 18446744073709551615}}"#).unwrap();
    match v.get("a") {
        Some(JsonValue::Array(items)) => {
            assert!(matches!(items[0], JsonValue::Number(JsonNumber::PosInt(1))));
            assert!(matches!(items[1], JsonValue::Number(JsonNumber::NegInt(-2))));
            assert!(matches!(&items[2], JsonValue::Number(JsonNumber::Float(t)) if t == "1.5"));
            assert_eq!(items[3].as_str(), Some("x"));
            assert_eq!(items[4].as_bool(), Some(true));
            assert!(matches!(items[5], JsonValue::Null));
        }
        _ => panic!("a must be an array"),
    }
    assert_eq!(v.get("b").and_then(|b| b.get("c")).and_then(|c| c.as_u64()), Some(u64::MAX));
}

#[test]
fn settings_are_read_from_their_text() {
    let ctx = AppCtx::new(s("/data"), s("/downloads"));
    let text = r#"{"downloadDir": "/music", "namingTemplate": "{artist} - {song}", "writeMetadata": true, "maxConcurrent": 5}"#;
    let (dir, template, saf, meta, lrc) = get_download_settings(&ctx, text);
    assert_eq!((dir.as_str(), template.as_str(), saf, meta, lrc), ("/music", "{artist} - {song}", None, true, false));
    assert_eq!(get_download_settings(&ctx, "").0, "/downloads");
    assert_eq!(get_download_settings(&ctx, "").1, "{song} - {artist}");
    assert_eq!(max_concurrent_setting(text), 5);
    assert_eq!(max_concurrent_setting("garbage"), 3);
}

#[test]
fn command_store_keys() {
    let mut doc = JsonValue::empty_object();
    save_settings(&mut doc, "S");
    save_history(&mut doc, "H");
    save_tasks(&mut doc, "T");
    assert_eq!(load_settings(&doc), "S");
    assert_eq!(load_history(&doc), "H");
    assert_eq!(load_tasks(&doc), "T");
    assert_eq!(load_string(&doc, "settings"), "S");
    assert_eq!(load_string(&doc, "history"), "H");
    assert_eq!(load_string(&doc, "tasks"), "T");
}

// ---------- context and events ----------

#[test]
fn context_directories() {
    let ctx = AppCtx::new(s("/data"), s("/downloads"));
    assert_eq!(ctx.data_dir(), "/data");
    assert_eq!(ctx.download_dir(), "/downloads");
    assert_eq!(ctx.store_path(), "/data/data.json");
    assert_eq!(get_default_download_dir(&ctx), "/downloads");
    assert_eq!(get_default_download_dir_impl(&ctx), "/downloads");
    let ctx2 = AppCtx::new(s("/data/"), s("d"));
    assert_eq!(ctx2.store_path(), "/data/data.json");
}

#[test]
fn history_replays_events_in_order() {
    let mut bus = EventBus::new();
    bus.publish(s("download-progress"), s("{\"p\":1}"));
    bus.publish(s("download-completed"), s("{}"));
    let h = bus.subscribe();
    assert_eq!(
        h,
        vec![
            (s("download-progress"), s("{\"p\":1}")),
            (s("download-completed"), s("{}"))
        ]
    );
}

#[test]
fn history_keeps_only_the_most_recent_events() {
    let mut bus = EventBus::new();
    for i in 0..300u32 {
        bus.publish(format!("e{}", i), i.to_string());
    }
    let h = bus.subscribe();
    assert_eq!(h.len(), EVENT_HISTORY_LIMIT);
    assert_eq!(h[0], (s("e44"), s("44")));
    assert_eq!(h[255], (s("e299"), s("299")));
}

#[test]
fn context_replays_the_last_events_after_many_emits() {
    let mut ctx = AppCtx::new(s("/data"), s("/downloads"));
    for i in 0..300u32 {
        ctx.emit(&format!("e{}", i), Some(i.to_string()));
    }
    let h = ctx.subscribe();
    assert_eq!(h.len(), EVENT_HISTORY_LIMIT);
    assert_eq!(h[0], (s("e44"), s("44")));
    assert_eq!(h[255], (s("e299"), s("299")));
}

#[test]
fn serde_values_become_the_model() {
    let v: serde_json::Value = serde_json::from_str(r#"{"k": [false, -1]}"#).unwrap();
    let m = JsonValue::from_serde(v);
    match m.get("k") {
        Some(JsonValue::Array(items)) => {
            assert_eq!(items[0].as_bool(), Some(false));
            assert!(matches!(items[1], JsonValue::Number(JsonNumber::NegInt(-1))));
        }
        _ => panic!("k must be an array"),
    }
}

#[test]
fn emit_without_payload_records_null() {
    let mut ctx = AppCtx::new(s("/data"), s("/downloads"));
    assert!(ctx.subscribe().is_empty());
    let e = ctx.emit("download-error", None);
    assert_eq!(e, (s("download-error"), s("null")));
    ctx.emit("download-error", Some(s("\"x\"")));
    assert_eq!(
        ctx.subscribe(),
        vec![(s("download-error"), s("null")), (s("download-error"), s("\"x\""))]
    );
    assert_eq!(ctx.download_dir(), "/downloads");
}

// ---------- paths ----------

#[test]
fn join_and_absolute_paths() {
    assert_eq!(join("/a", "b"), "/a/b");
    assert_eq!(join("/a/", "b"), "/a/b");
    assert_eq!(join("", "b"), "b");
    assert_eq!(join("/a", "/b"), "/b");
    assert_eq!(join("saf://", "x.mp3"), "saf://x.mp3");
    assert!(is_absolute("/x"));
    assert!(!is_absolute("x/y"));
    assert!(!is_absolute(""));
    for (b, n) in [("/a", "b"), ("/a/", "b.mp3"), ("", "b"), ("/a", "/b"), ("a//", "c")] {
        let std_join = Path::new(b).join(n).to_string_lossy().to_string();
        assert_eq!(join(b, n), std_join);
    }
}

// ---------- download paths ----------

#[test]
fn decrypted_extensions() {
    assert_eq!(map_decrypted_extension("mgg"), "ogg");
    assert_eq!(map_decrypted_extension("mflac"), "flac");
    assert_eq!(map_decrypted_extension("mp3"), "mp3");
    assert_eq!(map_decrypted_extension("ogg"), "ogg");
    assert_eq!(map_decrypted_extension(""), "");
}

#[test]
fn filename_templates() {
    let sg = song("Song", "Artist", "Album", "FLAC");
    assert_eq!(build_filename("{song} - {artist}", &sg), "Song - Artist");
    assert_eq!(build_filename("{artist}/{album}/{song} [{quality}]", &sg), "Artist/Album/Song [FLAC]");
    assert_eq!(build_filename("{unknown}{song", &sg), "{unknown}{song");
    assert_eq!(build_filename("", &sg), "");
    let braces = song("{artist}", "A", "", "");
    assert_eq!(build_filename("{song}-{artist}", &braces), "{artist}-A");
}

#[test]
fn resolve_plain_directory() {
    let sg = song("晴天", "周杰伦", "叶惠美", "SQ");
    let (is_saf, path, uri) =
        resolve_download_path("/downloads", "{song} - {artist}", None, &sg, "F000abc.mflac", false);
    assert!(!is_saf);
    assert_eq!(path, "/downloads/晴天 - 周杰伦.flac");
    assert_eq!(uri, None);
    let (_, path, _) =
        resolve_download_path("/downloads/", "{song}", None, &sg, "M500abc.mgg", false);
    assert_eq!(path, "/downloads/晴天.ogg");
    let (_, path, _) = resolve_download_path("/d", "{song}", None, &sg, "noext", false);
    assert_eq!(path, "/d/晴天.flac");
    let (_, path, _) = resolve_download_path("/d", "{song}", None, &sg, "M800x.mp3", false);
    assert_eq!(path, "/d/晴天.mp3");
}

#[test]
fn resolve_saf_only_on_android() {
    let sg = song("A", "B", "", "");
    let (is_saf, name, uri) =
        resolve_download_path("saf://", "{song}", Some("content://tree/x"), &sg, "a.mp3", true);
    assert!(is_saf);
    assert_eq!(name, "A.mp3");
    assert_eq!(uri, Some(s("content://tree/x")));
    let (is_saf, path, uri) =
        resolve_download_path("saf://", "{song}", Some("content://tree/x"), &sg, "a.mp3", false);
    assert!(!is_saf);
    assert_eq!(path, "saf://A.mp3");
    assert_eq!(uri, None);
    let (is_saf, _, _) = resolve_download_path("saf://", "{song}", None, &sg, "a.mp3", true);
    assert!(!is_saf);
}

#[test]
fn download_settings_defaults() {
    let ctx = AppCtx::new(s("/data"), s("/downloads"));
    let (dir, template, saf, meta, lrc) = download_settings(&ctx, &None);
    assert_eq!(dir, "/downloads");
    assert_eq!(template, "{song} - {artist}");
    assert_eq!(saf, None);
    assert!(!meta);
    assert!(!lrc);
}

#[test]
fn download_settings_read_values() {
    let ctx = AppCtx::new(s("/data"), s("/downloads"));
    let settings = Some(obj(vec![
        ("downloadDir", JsonValue::Str(s("/music"))),
        ("namingTemplate", JsonValue::Str(s("{artist} - {song}"))),
        ("safFolderUri", JsonValue::Str(s("content://x"))),
        ("writeMetadata", JsonValue::Bool(true)),
        ("downloadLrc", JsonValue::Bool(true)),
    ]));
    let (dir, template, saf, meta, lrc) = download_settings(&ctx, &settings);
    assert_eq!(dir, "/music");
    assert_eq!(template, "{artist} - {song}");
    assert_eq!(saf, Some(s("content://x")));
    assert!(meta);
    assert!(lrc);
}

#[test]
fn download_settings_reject_bad_directories() {
    let ctx = AppCtx::new(s("/data"), s("/downloads"));
    for bad in ["/data/user/0/com.app/files", "/storage/data/data/x", "relative/dir", ""] {
        let settings = Some(obj(vec![("downloadDir", JsonValue::Str(s(bad)))]));
        let (dir, _, _, _, _) = download_settings(&ctx, &settings);
        assert_eq!(dir, "/downloads", "{}", bad);
    }
    let settings = Some(obj(vec![("downloadDir", JsonValue::Str(s("saf://")))]));
    assert_eq!(download_settings(&ctx, &settings).0, "/downloads");
    let settings = Some(obj(vec![("downloadDir", JsonValue::Str(s("/music")))]));
    assert_eq!(download_settings(&ctx, &settings).0, "/music");
    let settings = Some(obj(vec![("downloadDir", JsonValue::Bool(true))]));
    assert_eq!(download_settings(&ctx, &settings).0, "/downloads");
}

#[test]
fn download_settings_non_string_values() {
    let ctx = AppCtx::new(s("/data"), s("/downloads"));
    let settings = Some(obj(vec![
        ("namingTemplate", JsonValue::Str(s(""))),
        ("safFolderUri", JsonValue::Str(s(""))),
        ("writeMetadata", JsonValue::Str(s("true"))),
        ("downloadLrc", JsonValue::Number(JsonNumber::PosInt(1))),
    ]));
    let (_, template, saf, meta, lrc) = download_settings(&ctx, &settings);
    assert_eq!(template, "");
    assert_eq!(saf, None);
    assert!(!meta);
    assert!(!lrc);
    let (_, template, _, _, _) = download_settings(&ctx, &Some(JsonValue::Array(vec![])));
    assert_eq!(template, "{song} - {artist}");
}

#[test]
fn max_concurrent_from_settings() {
    let num = |n: u64| Some(obj(vec![("maxConcurrent", JsonValue::Number(JsonNumber::PosInt(n)))]));
    assert_eq!(max_concurrent_of(&num(5)), 5);
    assert_eq!(max_concurrent_of(&num((1u64 << 32) + 7)), 7);
    assert_eq!(max_concurrent_of(&None), 3);
    assert_eq!(
        max_concurrent_of(&Some(obj(vec![("maxConcurrent", JsonValue::Str(s("5")))]))),
        3
    );
    assert_eq!(
        max_concurrent_of(&Some(obj(vec![(
            "maxConcurrent",
            JsonValue::Number(JsonNumber::NegInt(-1))
        )]))),
        3
    );
    assert_eq!(
        max_concurrent_of(&Some(obj(vec![(
            "maxConcurrent",
            JsonValue::Number(JsonNumber::Float(s("2.5")))
        )]))),
        3
    );
}

// ---------- path check ----------

fn run_check(step: ProbeStep, existing: &[&str]) -> PathCheck {
    let mut step = step;
    loop {
        match step {
            ProbeStep::Done(c) => return c,
            ProbeStep::Check(p) => {
                let e = existing.contains(&p.candidate());
                step = p.advance(e);
            }
        }
    }
}

fn start_check(ctx: &AppCtx, settings: &str, q: &str, android: bool) -> ProbeStep {
    check_download_path(
        ctx,
        settings,
        1,
        s("mid"),
        s("Song"),
        s("Artist"),
        s("Album"),
        s(""),
        s(q),
        s("SQ"),
        android,
    )
}

#[test]
fn path_check_free_target() {
    let ctx = AppCtx::new(s("/data"), s("/downloads"));
    let c = run_check(start_check(&ctx, "", "a.flac", false), &[]);
    assert_eq!(c.original_path, "/downloads/Song - Artist.flac");
    assert!(!c.exists);
    assert_eq!(c.suggested_path, "/downloads/Song - Artist.flac");
    assert!(!c.is_saf);
}

#[test]
fn path_check_suggests_first_free_alternative() {
    let ctx = AppCtx::new(s("/data"), s("/downloads"));
    let c = run_check(
        start_check(&ctx, "", "a.mp3", false),
        &[
            "/downloads/Song - Artist.mp3",
            "/downloads/Song - Artist (1).mp3",
            "/downloads/Song - Artist (2).mp3",
        ],
    );
    assert_eq!(c.original_path, "/downloads/Song - Artist.mp3");
    assert!(c.exists);
    assert_eq!(c.suggested_path, "/downloads/Song - Artist (3).mp3");
}

#[test]
fn path_check_counts_past_nine() {
    let ctx = AppCtx::new(s("/data"), s("/downloads"));
    let mut existing: Vec<String> = vec![s("/downloads/Song - Artist.mp3")];
    for i in 1..=10 {
        existing.push(format!("/downloads/Song - Artist ({}).mp3", i));
    }
    let refs: Vec<&str> = existing.iter().map(|x| x.as_str()).collect();
    let c = run_check(start_check(&ctx, "", "a.mp3", false), &refs);
    assert_eq!(c.suggested_path, "/downloads/Song - Artist (11).mp3");
}

#[test]
fn path_check_probe_counter_and_candidate() {
    let ctx = AppCtx::new(s("/data"), s("/downloads"));
    match start_check(&ctx, "", "a.mp3", false) {
        ProbeStep::Check(p) => {
            assert_eq!(p.counter(), 0);
            assert_eq!(p.candidate(), "/downloads/Song - Artist.mp3");
            match p.advance(true) {
                ProbeStep::Check(p1) => {
                    assert_eq!(p1.counter(), 1);
                    assert_eq!(p1.candidate(), "/downloads/Song - Artist (1).mp3");
                }
                ProbeStep::Done(_) => panic!("expected a further check"),
            }
        }
        ProbeStep::Done(_) => panic!("expected a check"),
    }
}

#[test]
fn path_check_never_tries_a_path_twice() {
    let ctx = AppCtx::new(s("/data"), s("/downloads"));
    let mut seen: Vec<String> = Vec::new();
    let mut step = start_check(&ctx, "", "a.mp3", false);
    for _ in 0..40 {
        match step {
            ProbeStep::Check(p) => {
                assert!(!seen.contains(&p.candidate().to_string()));
                seen.push(p.candidate().to_string());
                step = p.advance(true);
            }
            ProbeStep::Done(_) => panic!("every candidate exists"),
        }
    }
    assert_eq!(seen[12], "/downloads/Song - Artist (12).mp3");
}

#[test]
fn path_check_falls_back_from_saf_directory() {
    let ctx = AppCtx::new(s("/data"), s("/downloads"));
    let settings = r#"{"downloadDir": "saf://", "safFolderUri": "content://t"}"#;
    match start_check(&ctx, settings, "a.mp3", true) {
        ProbeStep::Check(p) => assert_eq!(p.candidate(), "/downloads/Song - Artist.mp3"),
        ProbeStep::Done(_) => panic!("a check is expected"),
    }
}

#[test]
fn path_check_matches_std_paths() {
    let ctx = AppCtx::new(s("/data"), s("/downloads"));
    let c = run_check(start_check(&ctx, r#"{"namingTemplate": "{song}"}"#, "noext", false), &["/downloads/Song.flac"]);
    assert_eq!(c.suggested_path, "/downloads/Song (1).flac");
}

// ---------- remove tasks ----------

#[test]
fn remove_tasks_summary_counts() {
    let mut summary = RemoveTasksSummary::new();
    summary.record("t1", Ok(()));
    summary.record("t2", Err(s("任务不存在")));
    summary.record("t3", Ok(()));
    assert_eq!(summary.succeeded, 2);
    assert_eq!(summary.failed, 1);
    assert_eq!(summary.errors, vec![s("t2: 任务不存在")]);
}

#[test]
fn removals_are_summarized_in_order() {
    let ids = vec![s("a"), s("b"), s("c"), s("d")];
    let outcomes = vec![Err(s("x")), Ok(()), Ok(()), Err(s("y"))];
    let summary = summarize_removals(&ids, outcomes);
    assert_eq!(summary.succeeded, 2);
    assert_eq!(summary.failed, 2);
    assert_eq!(summary.errors, vec![s("a: x"), s("d: y")]);
    let empty = summarize_removals(&vec![], vec![]);
    assert_eq!((empty.succeeded, empty.failed, empty.errors.len()), (0, 0, 0));
}

#[test]
fn remove_tasks_summary_as_json() {
    let mut summary = RemoveTasksSummary::new();
    summary.record("t1", Err(s("busy")));
    summary.record("t2", Ok(()));
    summary.record("t3", Err(s("gone")));
    let j = summary.to_json();
    assert_eq!(j.get("succeeded").and_then(|v| v.as_u64()), Some(1));
    assert_eq!(j.get("failed").and_then(|v| v.as_u64()), Some(2));
    match j.get("errors") {
        Some(JsonValue::Array(items)) => {
            let texts: Vec<&str> = items.iter().filter_map(|v| v.as_str()).collect();
            assert_eq!(texts, vec!["t1: busy", "t3: gone"]);
        }
        _ => panic!("errors must be an array"),
    }
}

#[test]
fn path_check_as_json() {
    let c = PathCheck {
        original_path: s("/downloads/a.mp3"),
        exists: true,
        suggested_path: s("/downloads/a (1).mp3"),
        is_saf: false,
    };
    let j = c.to_json();
    assert_eq!(j.get("original_path").and_then(|v| v.as_str()), Some("/downloads/a.mp3"));
    assert_eq!(j.get("exists").and_then(|v| v.as_bool()), Some(true));
    assert_eq!(j.get("suggested_path").and_then(|v| v.as_str()), Some("/downloads/a (1).mp3"));
    assert_eq!(j.get("is_saf").and_then(|v| v.as_bool()), Some(false));
}

// ---------- api ----------

#[test]
fn commands_are_found_by_name() {
    let names = [
        "search_songs", "fetch_hot_keywords", "fetch_suggestions", "fetch_cover",
        "fetch_playlist_songs", "search_playlists", "fetch_download_link", "get_lyric_by_id",
        "check_download_path", "create_qr_login", "check_qr_login", "login_with_uin_authst",
        "logout", "get_login_status", "load_settings", "save_settings", "load_history",
        "save_history", "get_default_download_dir", "load_tasks", "save_tasks",
        "add_download_task", "enqueue_task", "pause_task", "resume_task", "cancel_task",
        "remove_task", "remove_tasks", "set_max_concurrent", "request_notification_permission",
        "check_notification_permission", "check_update",
    ];
    for n in names {
        match parse_command(n) {
            Ok(c) => assert_eq!(c.name(), n),
            Err(e) => panic!("{} not found: {}", n, e),
        }
    }
    assert!(matches!(parse_command("remove_tasks"), Ok(Command::RemoveTasks)));
}

#[test]
fn unknown_command_is_refused() {
    match parse_command("format_disk") {
        Err(e) => assert_eq!(e, "未知命令: format_disk"),
        Ok(_) => panic!("should be unknown"),
    }
    assert!(parse_command("").is_err());
    assert!(parse_command("Load_settings").is_err());
}

#[test]
fn envelope_of_success_and_failure() {
    match invoke_envelope(Ok(JsonValue::Bool(true))) {
        JsonValue::Object(e) => {
            assert_eq!(e.len(), 3);
            assert_eq!(e[0].0, "code");
            assert!(matches!(e[0].1, JsonValue::Number(JsonNumber::PosInt(0))));
            assert!(matches!(e[1].1, JsonValue::Bool(true)));
            assert!(matches!(e[2].1, JsonValue::Null));
        }
        _ => panic!(),
    }
    match invoke_envelope(Err(s("bad"))) {
        JsonValue::Object(e) => {
            assert!(matches!(e[0].1, JsonValue::Number(JsonNumber::PosInt(1))));
            assert!(matches!(e[1].1, JsonValue::Null));
            match &e[2].1 {
                JsonValue::Str(m) => assert_eq!(m, "bad"),
                _ => panic!(),
            }
        }
        _ => panic!(),
    }
}

#[test]
fn info_lists_directories() {
    let ctx = AppCtx::new(s("/data"), s("/downloads"));
    assert_eq!(keys(&service_info(&ctx, "1.2.3")), vec![s("mode"), s("version"), s("download_dir"), s("data_dir")]);
    match service_info(&ctx, "1.2.3") {
        JsonValue::Object(e) => match &e[2].1 {
            JsonValue::Str(d) => assert_eq!(d, "/downloads"),
            _ => panic!(),
        },
        _ => panic!(),
    }
}

#[test]
fn file_requests_accept_plain_names_only() {
    let ctx = AppCtx::new(s("/data"), s("/downloads"));
    assert_eq!(requested_file_path(&ctx, Some("a.mp3")), Ok(s("/downloads/a.mp3")));
    assert_eq!(requested_file_path(&ctx, Some("晴天 - 周杰伦.flac")), Ok(s("/downloads/晴天 - 周杰伦.flac")));
    let msg = s("无效的文件名：只允许下载服务端下载目录中的文件");
    for bad in ["../etc/passwd", "a/b.mp3", "/etc/passwd", "", ".", "..", "a.mp3/"] {
        assert_eq!(requested_file_path(&ctx, Some(bad)), Err(msg.clone()), "{}", bad);
    }
    assert_eq!(requested_file_path(&ctx, None), Err(msg));
}

#[test]
fn content_disposition_encodes_utf8_names() {
    assert_eq!(content_disposition("a b.mp3"), "attachment; filename*=UTF-8''a%20b.mp3");
    assert_eq!(content_disposition("Song - A.flac"), "attachment; filename*=UTF-8''Song%20-%20A.flac");
    assert_eq!(content_disposition("a+b"), "attachment; filename*=UTF-8''a%2Bb");
    assert_eq!(
        content_disposition("晴天.flac"),
        "attachment; filename*=UTF-8''%E6%99%B4%E5%A4%A9.flac"
    );
    assert_eq!(content_disposition("A-z_0*(1)"), "attachment; filename*=UTF-8''A-z_0%2A%281%29");
}

// ---------- notifications ----------

#[test]
fn notification_texts() {
    let (t, b) = download_complete_notification("晴天", "周杰伦");
    assert_eq!(t, "下载完成：晴天");
    assert_eq!(b, "晴天 - 周杰伦");
    assert_eq!(download_notification_event(), "download-notification");
    let ctx = AppCtx::new(s("/data"), s("/downloads"));
    assert_eq!(request_notification_permission(&ctx), Ok(true));
    assert_eq!(check_notification_permission(&ctx), Ok(true));
}

#[test]
fn notification_payload_is_title_and_body() {
    let p = download_complete_payload("晴天", "周杰伦");
    assert_eq!(p.get("title").and_then(|v| v.as_str()), Some("下载完成：晴天"));
    assert_eq!(p.get("body").and_then(|v| v.as_str()), Some("晴天 - 周杰伦"));
    match p {
        JsonValue::Object(e) => assert_eq!(e.len(), 2),
        _ => panic!("not an object"),
    }
}

// ---------- lyrics and tags ----------

#[test]
fn lrc_files_sit_next_to_the_song() {
    assert_eq!(lrc_file_path("/downloads/晴天 - 周杰伦.flac"), "/downloads/晴天 - 周杰伦.lrc");
    assert_eq!(lrc_file_path("song.mp3"), "song.lrc");
    assert_eq!(lrc_file_path("/music/a.b.ogg"), "/music/a.b.lrc");
    assert_eq!(lrc_file_path("/"), "./unknown.lrc");
}

#[test]
fn lyric_choice_prefers_word_timed_lyrics() {
    let l = |e: Option<&str>, p: Option<&str>| Some(LyricData { elrc: e.map(s), lrc: p.map(s) });
    assert_eq!(select_lyric(l(Some("[00:01]a"), Some("[00:01]b"))), Some(s("[00:01]a")));
    assert_eq!(select_lyric(l(Some("  \n\t"), Some("[00:01]b"))), Some(s("[00:01]b")));
    assert_eq!(select_lyric(l(None, Some("x"))), Some(s("x")));
    assert_eq!(select_lyric(l(Some(" "), Some("\u{3000}"))), None);
    assert_eq!(select_lyric(l(None, None)), None);
    assert_eq!(select_lyric(None), None);
    assert!(blank(""));
    assert!(blank(" \u{a0}\u{2028}"));
    assert!(!blank(" a "));
}

#[test]
fn tag_plans() {
    assert!(plan_tags("t", "a", "b", None, None).is_none());
    let p = plan_tags("t", "", "b", Some(s("lyric")), None).unwrap();
    assert_eq!(p.title, Some(s("t")));
    assert_eq!(p.artist, None);
    assert_eq!(p.album, Some(s("b")));
    assert_eq!(p.lyrics, Some(s("lyric")));
    assert_eq!(p.cover, None);
    let p = plan_tags("", "", "", None, Some(vec![1, 2, 3])).unwrap();
    assert_eq!(p.title, None);
    assert_eq!(p.lyrics, None);
    assert_eq!(p.cover, Some(vec![1, 2, 3]));
}

fn front_covers(tag: &Tag) -> Vec<Vec<u8>> {
    tag.pictures()
        .iter()
        .filter(|p| p.pic_type() == PictureType::CoverFront)
        .map(|p| p.data().to_vec())
        .collect()
}

#[test]
fn tag_plan_rewrites_fields_and_cover() {
    let mut tag = Tag::new(TagType::Id3v2);
    tag.insert_text(ItemKey::TrackTitle, s("old title"));
    tag.insert_text(ItemKey::TrackArtist, s("old artist"));
    tag.insert_text(ItemKey::Genre, s("Pop"));
    tag.insert_text(ItemKey::Lyrics, s("old lyrics"));
    tag.push_picture(Picture::new_unchecked(PictureType::CoverFront, Some(MimeType::Png), None, vec![9]));
    tag.push_picture(Picture::new_unchecked(PictureType::CoverBack, Some(MimeType::Png), None, vec![8]));
    let plan = plan_tags("晴天", "", "叶惠美", None, Some(vec![1, 2, 3])).unwrap();
    apply_tag_plan(&mut tag, plan);
    assert_eq!(tag.get_string(&ItemKey::TrackTitle), Some("晴天"));
    assert_eq!(tag.get_string(&ItemKey::TrackArtist), None);
    assert_eq!(tag.get_string(&ItemKey::AlbumTitle), Some("叶惠美"));
    assert_eq!(tag.get_string(&ItemKey::Genre), Some("Pop"));
    assert_eq!(tag.get_string(&ItemKey::Lyrics), Some("old lyrics"));
    assert_eq!(front_covers(&tag), vec![vec![1, 2, 3]]);
    let cover = tag.pictures().iter().find(|p| p.pic_type() == PictureType::CoverFront).unwrap();
    assert_eq!(cover.mime_type(), Some(&MimeType::Jpeg));
    assert_eq!(tag.pictures().len(), 2);
    assert_eq!(tag.get_strings(&ItemKey::TrackTitle).count(), 1);
}

#[test]
fn tag_plan_replaces_lyrics_and_keeps_cover() {
    let mut tag = Tag::new(TagType::VorbisComments);
    tag.insert_text(ItemKey::Lyrics, s("old"));
    tag.push_picture(Picture::new_unchecked(PictureType::CoverFront, Some(MimeType::Png), None, vec![9]));
    let plan = plan_tags("t", "a", "", Some(s("[00:01]new")), None).unwrap();
    apply_tag_plan(&mut tag, plan);
    assert_eq!(tag.get_string(&ItemKey::Lyrics), Some("[00:01]new"));
    assert_eq!(tag.get_strings(&ItemKey::Lyrics).count(), 1);
    assert_eq!(tag.get_string(&ItemKey::TrackTitle), Some("t"));
    assert_eq!(tag.get_string(&ItemKey::TrackArtist), Some("a"));
    assert_eq!(front_covers(&tag), vec![vec![9]]);
}

fn formats(file: &TaggedFile) -> Vec<TagType> {
    file.tags().iter().map(|t| t.tag_type()).collect()
}

#[test]
fn preparing_drops_id3v1_and_keeps_primary() {
    let mut file = TaggedFile::new(
        FileType::Mpeg,
        FileProperties::default(),
        vec![Tag::new(TagType::Id3v1), Tag::new(TagType::Id3v2)],
    );
    assert!(prepare_primary_tag(&mut file));
    assert_eq!(formats(&file), vec![TagType::Id3v2]);
    assert!(file.primary_tag().is_some());
}

#[test]
fn preparing_a_custom_type_only_drops_id3v1() {
    let mut file = TaggedFile::new(
        FileType::Custom("unregistered"),
        FileProperties::default(),
        vec![Tag::new(TagType::Id3v1), Tag::new(TagType::Ape)],
    );
    assert!(prepare_primary_tag(&mut file));
    assert_eq!(formats(&file), vec![TagType::Ape]);
}

#[test]
fn guid_from_indices_picks_charset_characters() {
    let idx: Vec<usize> = (0..32).map(|i| i % 16).collect();
    assert_eq!(guid_from_indices(&idx), "ABCDEF1234567890ABCDEF1234567890");
    let idx = vec![15usize; 32];
    assert_eq!(guid_from_indices(&idx), "0".repeat(32));
    assert_eq!(guid_from_indices(&vec![6, 0]), "1A");
    assert_eq!(guid_from_indices(&vec![]), "");
}

#[test]
fn preparing_adds_missing_primary_tag() {
    let mut file = TaggedFile::new(FileType::Mpeg, FileProperties::default(), vec![Tag::new(TagType::Id3v1)]);
    assert!(prepare_primary_tag(&mut file));
    assert_eq!(formats(&file), vec![TagType::Id3v2]);
    let mut file = TaggedFile::new(FileType::Flac, FileProperties::default(), vec![]);
    assert!(!prepare_primary_tag(&mut file));
    assert_eq!(formats(&file), vec![TagType::VorbisComments]);
}

// ---------- opening the target file ----------

#[test]
fn fresh_download_truncates() {
    let (plan, act) = open_download_file(0);
    assert!(matches!(act, OpenAction::Open(OpenMode::Truncate)));
    let (_, act) = plan.opened(true);
    assert!(matches!(act, OpenAction::Use(0)));
    let (plan, _) = open_download_file(0);
    let (_, act) = plan.opened(false);
    match act {
        OpenAction::Fail(m) => assert_eq!(m, "文件创建失败，请检查磁盘空间"),
        _ => panic!(),
    }
}

#[test]
fn resumed_download_appends_when_file_is_long_enough() {
    let (plan, act) = open_download_file(100);
    assert!(matches!(act, OpenAction::Open(OpenMode::Append)));
    let (plan, act) = plan.opened(true);
    assert!(matches!(act, OpenAction::QueryLength));
    assert!(matches!(plan.phase, OpenPhase::Checking));
    let (_, act) = plan.length_known(Some(100));
    assert!(matches!(act, OpenAction::Use(100)));
}

#[test]
fn resumed_download_restarts_on_size_mismatch_or_unknown_file() {
    for len in [Some(99u64), Some(101u64), Some(0u64), None] {
        let (plan, _) = open_download_file(100);
        let (plan, _) = plan.opened(true);
        let (plan, act) = plan.length_known(len);
        assert!(matches!(act, OpenAction::Open(OpenMode::Truncate)));
        let (plan2, act) = plan.opened(true);
        assert!(matches!(act, OpenAction::Use(0)));
        assert_eq!(plan2.downloaded, 0);
    }
    let (plan, _) = open_download_file(100);
    let (plan, _) = plan.opened(true);
    let (plan, _) = plan.length_known(Some(1));
    match plan.opened(false).1 {
        OpenAction::Fail(m) => assert_eq!(m, "文件异常，请重试"),
        _ => panic!(),
    }
    let (plan, _) = open_download_file(5);
    match plan.opened(false).1 {
        OpenAction::Fail(m) => assert_eq!(m, "文件访问失败"),
        _ => panic!(),
    }
}

// ---------- utilities ----------

#[test]
fn guids_have_32_charset_characters() {
    for _ in 0..20 {
        let g = get_guid();
        assert_eq!(g.chars().count(), 32);
        assert!(g.chars().all(|c| "ABCDEF1234567890".contains(c)));
    }
    assert_ne!(get_guid(), get_guid());
}

#[test]
fn decryption_switch() {
    assert!(wants_decryption("key", true));
    assert!(!wants_decryption("", true));
    assert!(!wants_decryption("key", false));
    assert!(decryption_enabled(true, true));
    assert!(!decryption_enabled(true, false));
    assert!(!decryption_enabled(false, true));
}

#[test]
fn path_components_follow_std() {
    let cases = [
        "", "/", "//", ".", "..", "./", "./.", "a", "a/", "a//", "/a", "/a/b", "/a/b/", "a/.",
        "a/..", "a/./", "./a", "../a", "a/b/.", ".bashrc", "/x/.bashrc", "a.b.c", "a.", "..a",
        ".a.b", "/d/song.mflac", "dir.x/file", "dir.x/", "/downloads/晴天 - 周杰伦.flac",
        "a b/c d.e f", "...", "a/...", "x/..y",
    ];
    for c in cases {
        let p = Path::new(c);
        let std_name = p.file_name().and_then(|s| s.to_str()).map(|s| s.to_string());
        let std_stem = p.file_stem().and_then(|s| s.to_str()).map(|s| s.to_string());
        let std_ext = p.extension().and_then(|s| s.to_str()).map(|s| s.to_string());
        assert_eq!(file_name(c), std_name, "file_name {:?}", c);
        assert_eq!(file_stem(c), std_stem, "file_stem {:?}", c);
        assert_eq!(extension(c), std_ext, "extension {:?}", c);
    }
}
