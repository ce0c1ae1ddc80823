//! Notifications: a finished download is announced as a `download-notification` event;
//! the browser shows it and manages the permission itself.

use vstd::prelude::*;
use crate::ctx::AppCtx;
use crate::json::JsonValue;
use crate::text::{append_str, owned};

verus! {

/// The event name of download notifications.
pub open spec fn notification_event() -> Seq<char> {
    "download-notification"@
}

/// The title and body of the notification for a finished download:
/// `下载完成：<title>` and `<title> - <artist>`.
pub fn download_complete_notification(song_title: &str, artist: &str) -> (r: (String, String))
    ensures
        r.0@ == "下载完成："@ + song_title@,
        r.1@ == song_title@ + " - "@ + artist@,
{
    let mut title = owned("下载完成：");
    append_str(&mut title, song_title);
    let mut body = owned(song_title);
    append_str(&mut body, " - ");
    append_str(&mut body, artist);
    (title, body)
}

/// The payload of the notification for a finished download: the JSON object
/// `{"title": "下载完成：<title>", "body": "<title> - <artist>"}`.
pub fn download_complete_payload(song_title: &str, artist: &str) -> (r: JsonValue)
    ensures
        r matches JsonValue::Object(e) && e@.len() == 2
            && e@[0].0@ == "title"@ && (e@[0].1 matches JsonValue::Str(t) && t@ == "下载完成："@ + song_title@)
            && e@[1].0@ == "body"@ && (e@[1].1 matches JsonValue::Str(b) && b@ == song_title@ + " - "@ + artist@),
{
    let (title, body) = download_complete_notification(song_title, artist);
    let mut entries: Vec<(String, JsonValue)> = Vec::new();
    entries.push((owned("title"), JsonValue::Str(title)));
    entries.push((owned("body"), JsonValue::Str(body)));
    JsonValue::Object(entries)
}

/// The event name under which a finished download is announced.
pub fn download_notification_event() -> (r: &'static str)
    ensures
        r@ == notification_event(),
{
    "download-notification"
}

/// The permission is the browser's to manage: the server always answers that it is granted.
pub fn request_notification_permission(_ctx: &AppCtx) -> (r: Result<bool, String>)
    ensures
        r matches Ok(b) && b,
{
    Ok(true)
}

/// The permission is the browser's to manage: the server always answers that it is granted.
pub fn check_notification_permission(_ctx: &AppCtx) -> (r: Result<bool, String>)
    ensures
        r matches Ok(b) && b,
{
    Ok(true)
}

} // verus!
