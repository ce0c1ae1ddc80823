//! The HTTP API: command names of `/api/invoke`, its answer envelope, the checks on
//! `/api/files` requests, and the service information of `/api/info`.

use vstd::prelude::*;
use crate::ctx::AppCtx;
use crate::json::{JsonNumber, JsonValue};
use crate::paths::{file_name, is_plain_name, join, lemma_file_name_is_plain, spec_file_name, spec_join};
use crate::text::{append_str, owned, push_char, str_eq, to_chars};
use vstd::string::StringSliceAdditionalSpecFns;

verus! {

/// The commands that `/api/invoke` dispatches.
pub enum Command {
    SearchSongs,
    FetchHotKeywords,
    FetchSuggestions,
    FetchCover,
    FetchPlaylistSongs,
    SearchPlaylists,
    FetchDownloadLink,
    GetLyricById,
    CheckDownloadPath,
    CreateQrLogin,
    CheckQrLogin,
    LoginWithUinAuthst,
    Logout,
    GetLoginStatus,
    LoadSettings,
    SaveSettings,
    LoadHistory,
    SaveHistory,
    GetDefaultDownloadDir,
    LoadTasks,
    SaveTasks,
    AddDownloadTask,
    EnqueueTask,
    PauseTask,
    ResumeTask,
    CancelTask,
    RemoveTask,
    RemoveTasks,
    SetMaxConcurrent,
    RequestNotificationPermission,
    CheckNotificationPermission,
    CheckUpdate,
}

/// The name under which a command is invoked.
pub open spec fn command_name(c: Command) -> Seq<char> {
    match c {
        Command::SearchSongs => "search_songs"@,
        Command::FetchHotKeywords => "fetch_hot_keywords"@,
        Command::FetchSuggestions => "fetch_suggestions"@,
        Command::FetchCover => "fetch_cover"@,
        Command::FetchPlaylistSongs => "fetch_playlist_songs"@,
        Command::SearchPlaylists => "search_playlists"@,
        Command::FetchDownloadLink => "fetch_download_link"@,
        Command::GetLyricById => "get_lyric_by_id"@,
        Command::CheckDownloadPath => "check_download_path"@,
        Command::CreateQrLogin => "create_qr_login"@,
        Command::CheckQrLogin => "check_qr_login"@,
        Command::LoginWithUinAuthst => "login_with_uin_authst"@,
        Command::Logout => "logout"@,
        Command::GetLoginStatus => "get_login_status"@,
        Command::LoadSettings => "load_settings"@,
        Command::SaveSettings => "save_settings"@,
        Command::LoadHistory => "load_history"@,
        Command::SaveHistory => "save_history"@,
        Command::GetDefaultDownloadDir => "get_default_download_dir"@,
        Command::LoadTasks => "load_tasks"@,
        Command::SaveTasks => "save_tasks"@,
        Command::AddDownloadTask => "add_download_task"@,
        Command::EnqueueTask => "enqueue_task"@,
        Command::PauseTask => "pause_task"@,
        Command::ResumeTask => "resume_task"@,
        Command::CancelTask => "cancel_task"@,
        Command::RemoveTask => "remove_task"@,
        Command::RemoveTasks => "remove_tasks"@,
        Command::SetMaxConcurrent => "set_max_concurrent"@,
        Command::RequestNotificationPermission => "request_notification_permission"@,
        Command::CheckNotificationPermission => "check_notification_permission"@,
        Command::CheckUpdate => "check_update"@,
    }
}

/// The error text for an unknown command.
pub open spec fn unknown_command_message(cmd: Seq<char>) -> Seq<char> {
    "未知命令: "@ + cmd
}

impl Command {
    /// The name under which this command is invoked.
    pub fn name(&self) -> (r: &'static str)
        ensures
            r@ == command_name(*self),
    {
        match self {
            Command::SearchSongs => "search_songs",
            Command::FetchHotKeywords => "fetch_hot_keywords",
            Command::FetchSuggestions => "fetch_suggestions",
            Command::FetchCover => "fetch_cover",
            Command::FetchPlaylistSongs => "fetch_playlist_songs",
            Command::SearchPlaylists => "search_playlists",
            Command::FetchDownloadLink => "fetch_download_link",
            Command::GetLyricById => "get_lyric_by_id",
            Command::CheckDownloadPath => "check_download_path",
            Command::CreateQrLogin => "create_qr_login",
            Command::CheckQrLogin => "check_qr_login",
            Command::LoginWithUinAuthst => "login_with_uin_authst",
            Command::Logout => "logout",
            Command::GetLoginStatus => "get_login_status",
            Command::LoadSettings => "load_settings",
            Command::SaveSettings => "save_settings",
            Command::LoadHistory => "load_history",
            Command::SaveHistory => "save_history",
            Command::GetDefaultDownloadDir => "get_default_download_dir",
            Command::LoadTasks => "load_tasks",
            Command::SaveTasks => "save_tasks",
            Command::AddDownloadTask => "add_download_task",
            Command::EnqueueTask => "enqueue_task",
            Command::PauseTask => "pause_task",
            Command::ResumeTask => "resume_task",
            Command::CancelTask => "cancel_task",
            Command::RemoveTask => "remove_task",
            Command::RemoveTasks => "remove_tasks",
            Command::SetMaxConcurrent => "set_max_concurrent",
            Command::RequestNotificationPermission => "request_notification_permission",
            Command::CheckNotificationPermission => "check_notification_permission",
            Command::CheckUpdate => "check_update",
        }
    }
}

/// Finds the command invoked as `cmd`; an unknown name gives `未知命令: <cmd>`. Each wire
/// name selects the command of that name.
pub fn parse_command(cmd: &str) -> (r: Result<Command, String>)
    ensures
        match r {
            Ok(c) => command_name(c) == cmd@,
            Err(e) => e@ == unknown_command_message(cmd@) && forall|c: Command| command_name(c) != cmd@,
        },
        cmd@ == "search_songs"@ ==> r matches Ok(Command::SearchSongs),
        cmd@ == "fetch_hot_keywords"@ ==> r matches Ok(Command::FetchHotKeywords),
        cmd@ == "fetch_suggestions"@ ==> r matches Ok(Command::FetchSuggestions),
        cmd@ == "fetch_cover"@ ==> r matches Ok(Command::FetchCover),
        cmd@ == "fetch_playlist_songs"@ ==> r matches Ok(Command::FetchPlaylistSongs),
        cmd@ == "search_playlists"@ ==> r matches Ok(Command::SearchPlaylists),
        cmd@ == "fetch_download_link"@ ==> r matches Ok(Command::FetchDownloadLink),
        cmd@ == "get_lyric_by_id"@ ==> r matches Ok(Command::GetLyricById),
        cmd@ == "check_download_path"@ ==> r matches Ok(Command::CheckDownloadPath),
        cmd@ == "create_qr_login"@ ==> r matches Ok(Command::CreateQrLogin),
        cmd@ == "check_qr_login"@ ==> r matches Ok(Command::CheckQrLogin),
        cmd@ == "login_with_uin_authst"@ ==> r matches Ok(Command::LoginWithUinAuthst),
        cmd@ == "logout"@ ==> r matches Ok(Command::Logout),
        cmd@ == "get_login_status"@ ==> r matches Ok(Command::GetLoginStatus),
        cmd@ == "load_settings"@ ==> r matches Ok(Command::LoadSettings),
        cmd@ == "save_settings"@ ==> r matches Ok(Command::SaveSettings),
        cmd@ == "load_history"@ ==> r matches Ok(Command::LoadHistory),
        cmd@ == "save_history"@ ==> r matches Ok(Command::SaveHistory),
        cmd@ == "get_default_download_dir"@ ==> r matches Ok(Command::GetDefaultDownloadDir),
        cmd@ == "load_tasks"@ ==> r matches Ok(Command::LoadTasks),
        cmd@ == "save_tasks"@ ==> r matches Ok(Command::SaveTasks),
        cmd@ == "add_download_task"@ ==> r matches Ok(Command::AddDownloadTask),
        cmd@ == "enqueue_task"@ ==> r matches Ok(Command::EnqueueTask),
        cmd@ == "pause_task"@ ==> r matches Ok(Command::PauseTask),
        cmd@ == "resume_task"@ ==> r matches Ok(Command::ResumeTask),
        cmd@ == "cancel_task"@ ==> r matches Ok(Command::CancelTask),
        cmd@ == "remove_task"@ ==> r matches Ok(Command::RemoveTask),
        cmd@ == "remove_tasks"@ ==> r matches Ok(Command::RemoveTasks),
        cmd@ == "set_max_concurrent"@ ==> r matches Ok(Command::SetMaxConcurrent),
        cmd@ == "request_notification_permission"@ ==> r matches Ok(Command::RequestNotificationPermission),
        cmd@ == "check_notification_permission"@ ==> r matches Ok(Command::CheckNotificationPermission),
        cmd@ == "check_update"@ ==> r matches Ok(Command::CheckUpdate),
{
    let r = find_command(cmd);
    proof {
        lemma_wire_names();
        if r is Ok {
            lemma_command_names_distinct(r->Ok_0);
        }
    }
    r
}

/// The command invoked as `cmd`, found by comparing with each wire name in turn.
fn find_command(cmd: &str) -> (r: Result<Command, String>)
    ensures
        match r {
            Ok(c) => command_name(c) == cmd@,
            Err(e) => e@ == unknown_command_message(cmd@) && forall|c: Command| command_name(c) != cmd@,
        },
{
    if str_eq(cmd, "search_songs") {
        Ok(Command::SearchSongs)
    } else if str_eq(cmd, "fetch_hot_keywords") {
        Ok(Command::FetchHotKeywords)
    } else if str_eq(cmd, "fetch_suggestions") {
        Ok(Command::FetchSuggestions)
    } else if str_eq(cmd, "fetch_cover") {
        Ok(Command::FetchCover)
    } else if str_eq(cmd, "fetch_playlist_songs") {
        Ok(Command::FetchPlaylistSongs)
    } else if str_eq(cmd, "search_playlists") {
        Ok(Command::SearchPlaylists)
    } else if str_eq(cmd, "fetch_download_link") {
        Ok(Command::FetchDownloadLink)
    } else if str_eq(cmd, "get_lyric_by_id") {
        Ok(Command::GetLyricById)
    } else if str_eq(cmd, "check_download_path") {
        Ok(Command::CheckDownloadPath)
    } else if str_eq(cmd, "create_qr_login") {
        Ok(Command::CreateQrLogin)
    } else if str_eq(cmd, "check_qr_login") {
        Ok(Command::CheckQrLogin)
    } else if str_eq(cmd, "login_with_uin_authst") {
        Ok(Command::LoginWithUinAuthst)
    } else if str_eq(cmd, "logout") {
        Ok(Command::Logout)
    } else if str_eq(cmd, "get_login_status") {
        Ok(Command::GetLoginStatus)
    } else if str_eq(cmd, "load_settings") {
        Ok(Command::LoadSettings)
    } else if str_eq(cmd, "save_settings") {
        Ok(Command::SaveSettings)
    } else if str_eq(cmd, "load_history") {
        Ok(Command::LoadHistory)
    } else if str_eq(cmd, "save_history") {
        Ok(Command::SaveHistory)
    } else if str_eq(cmd, "get_default_download_dir") {
        Ok(Command::GetDefaultDownloadDir)
    } else if str_eq(cmd, "load_tasks") {
        Ok(Command::LoadTasks)
    } else if str_eq(cmd, "save_tasks") {
        Ok(Command::SaveTasks)
    } else if str_eq(cmd, "add_download_task") {
        Ok(Command::AddDownloadTask)
    } else if str_eq(cmd, "enqueue_task") {
        Ok(Command::EnqueueTask)
    } else if str_eq(cmd, "pause_task") {
        Ok(Command::PauseTask)
    } else if str_eq(cmd, "resume_task") {
        Ok(Command::ResumeTask)
    } else if str_eq(cmd, "cancel_task") {
        Ok(Command::CancelTask)
    } else if str_eq(cmd, "remove_task") {
        Ok(Command::RemoveTask)
    } else if str_eq(cmd, "remove_tasks") {
        Ok(Command::RemoveTasks)
    } else if str_eq(cmd, "set_max_concurrent") {
        Ok(Command::SetMaxConcurrent)
    } else if str_eq(cmd, "request_notification_permission") {
        Ok(Command::RequestNotificationPermission)
    } else if str_eq(cmd, "check_notification_permission") {
        Ok(Command::CheckNotificationPermission)
    } else if str_eq(cmd, "check_update") {
        Ok(Command::CheckUpdate)
    } else {
        let mut msg = owned("未知命令: ");
        append_str(&mut msg, cmd);
        Err(msg)
    }
}

/// The command invoked as `name`, if any.
pub open spec fn command_named(name: Seq<char>) -> Option<Command> {
    if name == "search_songs"@ {
        Some(Command::SearchSongs)
    } else if name == "fetch_hot_keywords"@ {
        Some(Command::FetchHotKeywords)
    } else if name == "fetch_suggestions"@ {
        Some(Command::FetchSuggestions)
    } else if name == "fetch_cover"@ {
        Some(Command::FetchCover)
    } else if name == "fetch_playlist_songs"@ {
        Some(Command::FetchPlaylistSongs)
    } else if name == "search_playlists"@ {
        Some(Command::SearchPlaylists)
    } else if name == "fetch_download_link"@ {
        Some(Command::FetchDownloadLink)
    } else if name == "get_lyric_by_id"@ {
        Some(Command::GetLyricById)
    } else if name == "check_download_path"@ {
        Some(Command::CheckDownloadPath)
    } else if name == "create_qr_login"@ {
        Some(Command::CreateQrLogin)
    } else if name == "check_qr_login"@ {
        Some(Command::CheckQrLogin)
    } else if name == "login_with_uin_authst"@ {
        Some(Command::LoginWithUinAuthst)
    } else if name == "logout"@ {
        Some(Command::Logout)
    } else if name == "get_login_status"@ {
        Some(Command::GetLoginStatus)
    } else if name == "load_settings"@ {
        Some(Command::LoadSettings)
    } else if name == "save_settings"@ {
        Some(Command::SaveSettings)
    } else if name == "load_history"@ {
        Some(Command::LoadHistory)
    } else if name == "save_history"@ {
        Some(Command::SaveHistory)
    } else if name == "get_default_download_dir"@ {
        Some(Command::GetDefaultDownloadDir)
    } else if name == "load_tasks"@ {
        Some(Command::LoadTasks)
    } else if name == "save_tasks"@ {
        Some(Command::SaveTasks)
    } else if name == "add_download_task"@ {
        Some(Command::AddDownloadTask)
    } else if name == "enqueue_task"@ {
        Some(Command::EnqueueTask)
    } else if name == "pause_task"@ {
        Some(Command::PauseTask)
    } else if name == "resume_task"@ {
        Some(Command::ResumeTask)
    } else if name == "cancel_task"@ {
        Some(Command::CancelTask)
    } else if name == "remove_task"@ {
        Some(Command::RemoveTask)
    } else if name == "remove_tasks"@ {
        Some(Command::RemoveTasks)
    } else if name == "set_max_concurrent"@ {
        Some(Command::SetMaxConcurrent)
    } else if name == "request_notification_permission"@ {
        Some(Command::RequestNotificationPermission)
    } else if name == "check_notification_permission"@ {
        Some(Command::CheckNotificationPermission)
    } else if name == "check_update"@ {
        Some(Command::CheckUpdate)
    } else {
        None
    }
}

/// Every command is found again from its name, so no two commands share a name.
pub proof fn lemma_command_names_distinct(c: Command)
    ensures
        command_named(command_name(c)) == Some(c),
{
    reveal_strlit("search_songs");
    reveal_strlit("fetch_hot_keywords");
    reveal_strlit("fetch_suggestions");
    reveal_strlit("fetch_cover");
    reveal_strlit("fetch_playlist_songs");
    reveal_strlit("search_playlists");
    reveal_strlit("fetch_download_link");
    reveal_strlit("get_lyric_by_id");
    reveal_strlit("check_download_path");
    reveal_strlit("create_qr_login");
    reveal_strlit("check_qr_login");
    reveal_strlit("login_with_uin_authst");
    reveal_strlit("logout");
    reveal_strlit("get_login_status");
    reveal_strlit("load_settings");
    reveal_strlit("save_settings");
    reveal_strlit("load_history");
    reveal_strlit("save_history");
    reveal_strlit("get_default_download_dir");
    reveal_strlit("load_tasks");
    reveal_strlit("save_tasks");
    reveal_strlit("add_download_task");
    reveal_strlit("enqueue_task");
    reveal_strlit("pause_task");
    reveal_strlit("resume_task");
    reveal_strlit("cancel_task");
    reveal_strlit("remove_task");
    reveal_strlit("remove_tasks");
    reveal_strlit("set_max_concurrent");
    reveal_strlit("request_notification_permission");
    reveal_strlit("check_notification_permission");
    reveal_strlit("check_update");
    assert("search_songs"@.len() == 12 && "search_songs"@[0] == 's' && "search_songs"@[1] == 'e' && "search_songs"@[2] == 'a');
    assert("fetch_hot_keywords"@.len() == 18 && "fetch_hot_keywords"@[0] == 'f' && "fetch_hot_keywords"@[1] == 'e' && "fetch_hot_keywords"@[2] == 't');
    assert("fetch_suggestions"@.len() == 17 && "fetch_suggestions"@[0] == 'f' && "fetch_suggestions"@[1] == 'e' && "fetch_suggestions"@[2] == 't');
    assert("fetch_cover"@.len() == 11 && "fetch_cover"@[0] == 'f' && "fetch_cover"@[1] == 'e' && "fetch_cover"@[2] == 't');
    assert("fetch_playlist_songs"@.len() == 20 && "fetch_playlist_songs"@[0] == 'f' && "fetch_playlist_songs"@[1] == 'e' && "fetch_playlist_songs"@[2] == 't');
    assert("search_playlists"@.len() == 16 && "search_playlists"@[0] == 's' && "search_playlists"@[1] == 'e' && "search_playlists"@[2] == 'a');
    assert("fetch_download_link"@.len() == 19 && "fetch_download_link"@[0] == 'f' && "fetch_download_link"@[1] == 'e' && "fetch_download_link"@[2] == 't');
    assert("get_lyric_by_id"@.len() == 15 && "get_lyric_by_id"@[0] == 'g' && "get_lyric_by_id"@[1] == 'e' && "get_lyric_by_id"@[2] == 't');
    assert("check_download_path"@.len() == 19 && "check_download_path"@[0] == 'c' && "check_download_path"@[1] == 'h' && "check_download_path"@[2] == 'e');
    assert("create_qr_login"@.len() == 15 && "create_qr_login"@[0] == 'c' && "create_qr_login"@[1] == 'r' && "create_qr_login"@[2] == 'e');
    assert("check_qr_login"@.len() == 14 && "check_qr_login"@[0] == 'c' && "check_qr_login"@[1] == 'h' && "check_qr_login"@[2] == 'e');
    assert("login_with_uin_authst"@.len() == 21 && "login_with_uin_authst"@[0] == 'l' && "login_with_uin_authst"@[1] == 'o' && "login_with_uin_authst"@[2] == 'g');
    assert("logout"@.len() == 6 && "logout"@[0] == 'l' && "logout"@[1] == 'o' && "logout"@[2] == 'g');
    assert("get_login_status"@.len() == 16 && "get_login_status"@[0] == 'g' && "get_login_status"@[1] == 'e' && "get_login_status"@[2] == 't');
    assert("load_settings"@.len() == 13 && "load_settings"@[0] == 'l' && "load_settings"@[1] == 'o' && "load_settings"@[2] == 'a');
    assert("save_settings"@.len() == 13 && "save_settings"@[0] == 's' && "save_settings"@[1] == 'a' && "save_settings"@[2] == 'v');
    assert("load_history"@.len() == 12 && "load_history"@[0] == 'l' && "load_history"@[1] == 'o' && "load_history"@[2] == 'a');
    assert("save_history"@.len() == 12 && "save_history"@[0] == 's' && "save_history"@[1] == 'a' && "save_history"@[2] == 'v');
    assert("get_default_download_dir"@.len() == 24 && "get_default_download_dir"@[0] == 'g' && "get_default_download_dir"@[1] == 'e' && "get_default_download_dir"@[2] == 't');
    assert("load_tasks"@.len() == 10 && "load_tasks"@[0] == 'l' && "load_tasks"@[1] == 'o' && "load_tasks"@[2] == 'a');
    assert("save_tasks"@.len() == 10 && "save_tasks"@[0] == 's' && "save_tasks"@[1] == 'a' && "save_tasks"@[2] == 'v');
    assert("add_download_task"@.len() == 17 && "add_download_task"@[0] == 'a' && "add_download_task"@[1] == 'd' && "add_download_task"@[2] == 'd');
    assert("enqueue_task"@.len() == 12 && "enqueue_task"@[0] == 'e' && "enqueue_task"@[1] == 'n' && "enqueue_task"@[2] == 'q');
    assert("pause_task"@.len() == 10 && "pause_task"@[0] == 'p' && "pause_task"@[1] == 'a' && "pause_task"@[2] == 'u');
    assert("resume_task"@.len() == 11 && "resume_task"@[0] == 'r' && "resume_task"@[1] == 'e' && "resume_task"@[2] == 's');
    assert("cancel_task"@.len() == 11 && "cancel_task"@[0] == 'c' && "cancel_task"@[1] == 'a' && "cancel_task"@[2] == 'n');
    assert("remove_task"@.len() == 11 && "remove_task"@[0] == 'r' && "remove_task"@[1] == 'e' && "remove_task"@[2] == 'm');
    assert("remove_tasks"@.len() == 12 && "remove_tasks"@[0] == 'r' && "remove_tasks"@[1] == 'e' && "remove_tasks"@[2] == 'm');
    assert("set_max_concurrent"@.len() == 18 && "set_max_concurrent"@[0] == 's' && "set_max_concurrent"@[1] == 'e' && "set_max_concurrent"@[2] == 't');
    assert("request_notification_permission"@.len() == 31 && "request_notification_permission"@[0] == 'r' && "request_notification_permission"@[1] == 'e' && "request_notification_permission"@[2] == 'q');
    assert("check_notification_permission"@.len() == 29 && "check_notification_permission"@[0] == 'c' && "check_notification_permission"@[1] == 'h' && "check_notification_permission"@[2] == 'e');
    assert("check_update"@.len() == 12 && "check_update"@[0] == 'c' && "check_update"@[1] == 'h' && "check_update"@[2] == 'e');
    match c {
        Command::SearchSongs => {},
        Command::FetchHotKeywords => {},
        Command::FetchSuggestions => {},
        Command::FetchCover => {},
        Command::FetchPlaylistSongs => {},
        Command::SearchPlaylists => {},
        Command::FetchDownloadLink => {},
        Command::GetLyricById => {},
        Command::CheckDownloadPath => {},
        Command::CreateQrLogin => {},
        Command::CheckQrLogin => {},
        Command::LoginWithUinAuthst => {},
        Command::Logout => {},
        Command::GetLoginStatus => {},
        Command::LoadSettings => {},
        Command::SaveSettings => {},
        Command::LoadHistory => {},
        Command::SaveHistory => {},
        Command::GetDefaultDownloadDir => {},
        Command::LoadTasks => {},
        Command::SaveTasks => {},
        Command::AddDownloadTask => {},
        Command::EnqueueTask => {},
        Command::PauseTask => {},
        Command::ResumeTask => {},
        Command::CancelTask => {},
        Command::RemoveTask => {},
        Command::RemoveTasks => {},
        Command::SetMaxConcurrent => {},
        Command::RequestNotificationPermission => {},
        Command::CheckNotificationPermission => {},
        Command::CheckUpdate => {},
    }
}

/// The wire names of `/api/invoke`: each command is invoked under its own fixed name, and
/// that name selects it.
pub proof fn lemma_wire_names()
    ensures
        command_name(Command::SearchSongs) == "search_songs"@,
        command_name(Command::FetchHotKeywords) == "fetch_hot_keywords"@,
        command_name(Command::FetchSuggestions) == "fetch_suggestions"@,
        command_name(Command::FetchCover) == "fetch_cover"@,
        command_name(Command::FetchPlaylistSongs) == "fetch_playlist_songs"@,
        command_name(Command::SearchPlaylists) == "search_playlists"@,
        command_name(Command::FetchDownloadLink) == "fetch_download_link"@,
        command_name(Command::GetLyricById) == "get_lyric_by_id"@,
        command_name(Command::CheckDownloadPath) == "check_download_path"@,
        command_name(Command::CreateQrLogin) == "create_qr_login"@,
        command_name(Command::CheckQrLogin) == "check_qr_login"@,
        command_name(Command::LoginWithUinAuthst) == "login_with_uin_authst"@,
        command_name(Command::Logout) == "logout"@,
        command_name(Command::GetLoginStatus) == "get_login_status"@,
        command_name(Command::LoadSettings) == "load_settings"@,
        command_name(Command::SaveSettings) == "save_settings"@,
        command_name(Command::LoadHistory) == "load_history"@,
        command_name(Command::SaveHistory) == "save_history"@,
        command_name(Command::GetDefaultDownloadDir) == "get_default_download_dir"@,
        command_name(Command::LoadTasks) == "load_tasks"@,
        command_name(Command::SaveTasks) == "save_tasks"@,
        command_name(Command::AddDownloadTask) == "add_download_task"@,
        command_name(Command::EnqueueTask) == "enqueue_task"@,
        command_name(Command::PauseTask) == "pause_task"@,
        command_name(Command::ResumeTask) == "resume_task"@,
        command_name(Command::CancelTask) == "cancel_task"@,
        command_name(Command::RemoveTask) == "remove_task"@,
        command_name(Command::RemoveTasks) == "remove_tasks"@,
        command_name(Command::SetMaxConcurrent) == "set_max_concurrent"@,
        command_name(Command::RequestNotificationPermission) == "request_notification_permission"@,
        command_name(Command::CheckNotificationPermission) == "check_notification_permission"@,
        command_name(Command::CheckUpdate) == "check_update"@,
        command_named("search_songs"@) == Some(Command::SearchSongs),
        command_named("fetch_hot_keywords"@) == Some(Command::FetchHotKeywords),
        command_named("fetch_suggestions"@) == Some(Command::FetchSuggestions),
        command_named("fetch_cover"@) == Some(Command::FetchCover),
        command_named("fetch_playlist_songs"@) == Some(Command::FetchPlaylistSongs),
        command_named("search_playlists"@) == Some(Command::SearchPlaylists),
        command_named("fetch_download_link"@) == Some(Command::FetchDownloadLink),
        command_named("get_lyric_by_id"@) == Some(Command::GetLyricById),
        command_named("check_download_path"@) == Some(Command::CheckDownloadPath),
        command_named("create_qr_login"@) == Some(Command::CreateQrLogin),
        command_named("check_qr_login"@) == Some(Command::CheckQrLogin),
        command_named("login_with_uin_authst"@) == Some(Command::LoginWithUinAuthst),
        command_named("logout"@) == Some(Command::Logout),
        command_named("get_login_status"@) == Some(Command::GetLoginStatus),
        command_named("load_settings"@) == Some(Command::LoadSettings),
        command_named("save_settings"@) == Some(Command::SaveSettings),
        command_named("load_history"@) == Some(Command::LoadHistory),
        command_named("save_history"@) == Some(Command::SaveHistory),
        command_named("get_default_download_dir"@) == Some(Command::GetDefaultDownloadDir),
        command_named("load_tasks"@) == Some(Command::LoadTasks),
        command_named("save_tasks"@) == Some(Command::SaveTasks),
        command_named("add_download_task"@) == Some(Command::AddDownloadTask),
        command_named("enqueue_task"@) == Some(Command::EnqueueTask),
        command_named("pause_task"@) == Some(Command::PauseTask),
        command_named("resume_task"@) == Some(Command::ResumeTask),
        command_named("cancel_task"@) == Some(Command::CancelTask),
        command_named("remove_task"@) == Some(Command::RemoveTask),
        command_named("remove_tasks"@) == Some(Command::RemoveTasks),
        command_named("set_max_concurrent"@) == Some(Command::SetMaxConcurrent),
        command_named("request_notification_permission"@) == Some(Command::RequestNotificationPermission),
        command_named("check_notification_permission"@) == Some(Command::CheckNotificationPermission),
        command_named("check_update"@) == Some(Command::CheckUpdate),
{
    lemma_command_names_distinct(Command::SearchSongs);
    lemma_command_names_distinct(Command::FetchHotKeywords);
    lemma_command_names_distinct(Command::FetchSuggestions);
    lemma_command_names_distinct(Command::FetchCover);
    lemma_command_names_distinct(Command::FetchPlaylistSongs);
    lemma_command_names_distinct(Command::SearchPlaylists);
    lemma_command_names_distinct(Command::FetchDownloadLink);
    lemma_command_names_distinct(Command::GetLyricById);
    lemma_command_names_distinct(Command::CheckDownloadPath);
    lemma_command_names_distinct(Command::CreateQrLogin);
    lemma_command_names_distinct(Command::CheckQrLogin);
    lemma_command_names_distinct(Command::LoginWithUinAuthst);
    lemma_command_names_distinct(Command::Logout);
    lemma_command_names_distinct(Command::GetLoginStatus);
    lemma_command_names_distinct(Command::LoadSettings);
    lemma_command_names_distinct(Command::SaveSettings);
    lemma_command_names_distinct(Command::LoadHistory);
    lemma_command_names_distinct(Command::SaveHistory);
    lemma_command_names_distinct(Command::GetDefaultDownloadDir);
    lemma_command_names_distinct(Command::LoadTasks);
    lemma_command_names_distinct(Command::SaveTasks);
    lemma_command_names_distinct(Command::AddDownloadTask);
    lemma_command_names_distinct(Command::EnqueueTask);
    lemma_command_names_distinct(Command::PauseTask);
    lemma_command_names_distinct(Command::ResumeTask);
    lemma_command_names_distinct(Command::CancelTask);
    lemma_command_names_distinct(Command::RemoveTask);
    lemma_command_names_distinct(Command::RemoveTasks);
    lemma_command_names_distinct(Command::SetMaxConcurrent);
    lemma_command_names_distinct(Command::RequestNotificationPermission);
    lemma_command_names_distinct(Command::CheckNotificationPermission);
    lemma_command_names_distinct(Command::CheckUpdate);
}

/// The answer of `/api/invoke`: `{"code": 0, "data": <result>, "error": null}` on success,
/// `{"code": 1, "data": null, "error": <message>}` on failure.
pub fn invoke_envelope(result: Result<JsonValue, String>) -> (r: JsonValue)
    ensures
        r matches JsonValue::Object(e) && e@.len() == 3 && e@[0].0@ == "code"@ && e@[1].0@ == "data"@
            && e@[2].0@ == "error"@ && match result {
            Ok(v) => {
                &&& e@[0].1 == JsonValue::Number(JsonNumber::PosInt(0))
                &&& e@[1].1 == v
                &&& e@[2].1 == JsonValue::Null
            },
            Err(m) => {
                &&& e@[0].1 == JsonValue::Number(JsonNumber::PosInt(1))
                &&& e@[1].1 == JsonValue::Null
                &&& e@[2].1 matches JsonValue::Str(s) && s@ == m@
            },
        },
{
    let mut entries: Vec<(String, JsonValue)> = Vec::new();
    match result {
        Ok(v) => {
            entries.push((owned("code"), JsonValue::Number(JsonNumber::PosInt(0))));
            entries.push((owned("data"), v));
            entries.push((owned("error"), JsonValue::Null));
        },
        Err(m) => {
            entries.push((owned("code"), JsonValue::Number(JsonNumber::PosInt(1))));
            entries.push((owned("data"), JsonValue::Null));
            entries.push((owned("error"), JsonValue::Str(m)));
        },
    }
    JsonValue::Object(entries)
}

/// The service information of `/api/info`: mode `web`, the version, and the download and
/// data directories.
pub fn service_info(ctx: &AppCtx, version: &str) -> (r: JsonValue)
    ensures
        r matches JsonValue::Object(e) && e@.len() == 4
            && e@[0].0@ == "mode"@ && (e@[0].1 matches JsonValue::Str(s) && s@ == "web"@)
            && e@[1].0@ == "version"@ && (e@[1].1 matches JsonValue::Str(s) && s@ == version@)
            && e@[2].0@ == "download_dir"@ && (e@[2].1 matches JsonValue::Str(s) && s@ == ctx.download_dir_view())
            && e@[3].0@ == "data_dir"@ && (e@[3].1 matches JsonValue::Str(s) && s@ == ctx.data_dir_view()),
{
    let mut entries: Vec<(String, JsonValue)> = Vec::new();
    entries.push((owned("mode"), JsonValue::Str(owned("web"))));
    entries.push((owned("version"), JsonValue::Str(owned(version))));
    entries.push((owned("download_dir"), JsonValue::Str(owned(ctx.download_dir()))));
    entries.push((owned("data_dir"), JsonValue::Str(owned(ctx.data_dir()))));
    JsonValue::Object(entries)
}

/// The error text for a file request that names anything but a plain file name.
pub open spec fn invalid_file_name_message() -> Seq<char> {
    "无效的文件名：只允许下载服务端下载目录中的文件"@
}

/// A file request is accepted when the name is non-empty and is its own file name (no
/// directory part, no `.` or `..`).
pub open spec fn acceptable_file_name(name: Seq<char>) -> bool {
    name.len() > 0 && spec_file_name(name) == Some(name)
}

/// Only files directly inside the download directory are served: an accepted name is one
/// plain component (no `/`, not `.` or `..`), and the path served is the download
/// directory, a separator when it does not end with one, and that name.
pub proof fn lemma_served_file_in_download_dir(download_dir: Seq<char>, name: Seq<char>)
    requires
        acceptable_file_name(name),
    ensures
        is_plain_name(name),
        spec_join(download_dir, name) == if download_dir.len() == 0 || download_dir[download_dir.len() - 1] == '/' {
            download_dir + name
        } else {
            download_dir + seq!['/'] + name
        },
{
    lemma_file_name_is_plain(name);
}

/// The path of the file that `/api/files?name=<name>` asks for, inside the download
/// directory; a missing name counts as empty. Anything but a plain file name is refused
/// with `无效的文件名：只允许下载服务端下载目录中的文件`.
pub fn requested_file_path(ctx: &AppCtx, name: Option<&str>) -> (r: Result<String, String>)
    ensures
        ({
            let n = match name {
                Some(s) => s@,
                None => Seq::empty(),
            };
            match r {
                Ok(p) => acceptable_file_name(n) && p@ == spec_join(ctx.download_dir_view(), n),
                Err(e) => !acceptable_file_name(n) && e@ == invalid_file_name_message(),
            }
        }),
{
    let name: &str = match name {
        Some(s) => s,
        None => "",
    };
    proof {
        reveal_strlit("");
    }
    let fname = match file_name(name) {
        Some(f) => f,
        None => String::new(),
    };
    if fname.as_str().is_empty() || !str_eq(fname.as_str(), name) {
        return Err(owned("无效的文件名：只允许下载服务端下载目录中的文件"));
    }
    Ok(join(ctx.download_dir(), fname.as_str()))
}

/// Bytes that the form-urlencoded serializer keeps as they are.
pub open spec fn urlencoded_unchanged(b: u8) -> bool {
    b == 0x2a || b == 0x2d || b == 0x2e || (0x30 <= b <= 0x39) || (0x41 <= b <= 0x5a) || b == 0x5f
        || (0x61 <= b <= 0x7a)
}

/// The upper-case hexadecimal digit for `d` (0 to 15).
pub open spec fn hex_upper(d: int) -> char {
    if d < 10 {
        ((0x30 + d) as u8) as char
    } else {
        ((0x41 + d - 10) as u8) as char
    }
}

/// The form-urlencoded form of one byte: kept, `+` for a space, `%XX` otherwise.
pub open spec fn urlencoded_byte(b: u8) -> Seq<char> {
    if urlencoded_unchanged(b) {
        seq![b as char]
    } else if b == 0x20 {
        seq!['+']
    } else {
        seq!['%', hex_upper(b as int / 16), hex_upper(b as int % 16)]
    }
}

/// The `application/x-www-form-urlencoded` serialization of `bytes`.
pub open spec fn form_urlencoded(bytes: Seq<u8>) -> Seq<char>
    decreases bytes.len(),
{
    if bytes.len() == 0 {
        Seq::empty()
    } else {
        urlencoded_byte(bytes[0]) + form_urlencoded(bytes.drop_first())
    }
}

/// `url::form_urlencoded::byte_serialize`, collected into a string.
///
/// Trusted: the serializer keeps the bytes `*`, `-`, `.`, `_`, digits and ASCII letters,
/// writes a space as `+`, and every other byte as `%` and two upper-case hex digits, in the
/// order of the input.
#[verifier::external_body]
fn byte_serialize(bytes: &[u8]) -> (r: String)
    ensures
        r@ == form_urlencoded(bytes@),
{
    url::form_urlencoded::byte_serialize(bytes).collect()
}

/// Bytes that an RFC 5987 value keeps as they are here: ASCII letters, digits, `-`, `.` and
/// `_` (all of them `attr-char`s).
pub open spec fn rfc5987_unchanged(b: u8) -> bool {
    b == 0x2d || b == 0x2e || (0x30 <= b <= 0x39) || (0x41 <= b <= 0x5a) || b == 0x5f || (0x61 <= b <= 0x7a)
}

/// The RFC 5987 form of one byte: kept, or `%` and two upper-case hex digits.
pub open spec fn rfc5987_byte(b: u8) -> Seq<char> {
    if rfc5987_unchanged(b) {
        seq![b as char]
    } else {
        seq!['%', hex_upper(b as int / 16), hex_upper(b as int % 16)]
    }
}

/// The RFC 5987 percent-encoding of `bytes` (a space becomes `%20`).
pub open spec fn rfc5987(bytes: Seq<u8>) -> Seq<char>
    decreases bytes.len(),
{
    if bytes.len() == 0 {
        Seq::empty()
    } else {
        rfc5987_byte(bytes[0]) + rfc5987(bytes.drop_first())
    }
}

/// One character of form-urlencoded text in RFC 5987 form: `+` (a space) becomes `%20`, `*`
/// becomes `%2A`, any other character stays.
pub open spec fn rfc5987_char(c: char) -> Seq<char> {
    if c == '+' {
        seq!['%', '2', '0']
    } else if c == '*' {
        seq!['%', '2', 'A']
    } else {
        seq![c]
    }
}

/// Form-urlencoded text in RFC 5987 form, character by character.
pub open spec fn from_form(s: Seq<char>) -> Seq<char>
    decreases s.len(),
{
    if s.len() == 0 {
        Seq::empty()
    } else {
        rfc5987_char(s[0]) + from_form(s.drop_first())
    }
}

/// `from_form` works piece by piece.
proof fn lemma_from_form_add(a: Seq<char>, b: Seq<char>)
    ensures
        from_form(a + b) == from_form(a) + from_form(b),
    decreases a.len(),
{
    if a.len() == 0 {
        assert(a + b =~= b);
        assert(from_form(a) + from_form(b) =~= from_form(b));
    } else {
        assert((a + b).drop_first() =~= a.drop_first() + b);
        lemma_from_form_add(a.drop_first(), b);
        assert(from_form(a + b) =~= from_form(a) + from_form(b));
    }
}

/// `from_form` of a single character.
proof fn lemma_from_form_one(c: char)
    ensures
        from_form(seq![c]) == rfc5987_char(c),
{
    assert(seq![c].drop_first() =~= Seq::<char>::empty());
    assert(seq![c][0] == c);
    assert(from_form(Seq::<char>::empty()) == Seq::<char>::empty());
    assert(from_form(seq![c]) == rfc5987_char(c) + from_form(seq![c].drop_first()));
    assert(rfc5987_char(c) + Seq::<char>::empty() =~= rfc5987_char(c));
}

/// The hex digits are neither `+` nor `*`.
proof fn lemma_hex_digit(d: int)
    requires
        0 <= d < 16,
    ensures
        hex_upper(d) != '+',
        hex_upper(d) != '*',
        from_form(seq![hex_upper(d)]) == seq![hex_upper(d)],
{
    lemma_from_form_one(hex_upper(d));
}

/// Form-urlencoding and then rewriting `+` and `*` gives the RFC 5987 encoding.
proof fn lemma_form_to_rfc5987(bytes: Seq<u8>)
    ensures
        from_form(form_urlencoded(bytes)) == rfc5987(bytes),
    decreases bytes.len(),
{
    if bytes.len() > 0 {
        let b = bytes[0];
        lemma_form_to_rfc5987(bytes.drop_first());
        lemma_from_form_add(urlencoded_byte(b), form_urlencoded(bytes.drop_first()));
        if urlencoded_unchanged(b) {
            lemma_from_form_one(b as char);
            if b == 0x2a {
                assert((b as char) == '*');
                assert(hex_upper(2) == '2');
                assert(hex_upper(10) == 'A');
            } else {
                assert((b as char) != '+' && (b as char) != '*');
            }
        } else if b == 0x20 {
            lemma_from_form_one('+');
            assert(hex_upper(2) == '2');
            assert(hex_upper(0) == '0');
        } else {
            let h1 = hex_upper(b as int / 16);
            let h2 = hex_upper(b as int % 16);
            lemma_hex_digit(b as int / 16);
            lemma_hex_digit(b as int % 16);
            lemma_from_form_one('%');
            assert(seq!['%', h1, h2] =~= seq!['%'] + seq![h1] + seq![h2]);
            lemma_from_form_add(seq!['%'], seq![h1]);
            lemma_from_form_add(seq!['%'] + seq![h1], seq![h2]);
            assert(from_form(seq!['%', h1, h2]) =~= seq!['%', h1, h2]);
        }
    }
}

/// The `Content-Disposition` value for downloading `file_name`:
/// `attachment; filename*=UTF-8''<RFC 5987 percent-encoding of the name's UTF-8 bytes>`.
/// The name is form-urlencoded by the url crate, then its `+` (a space) and `*` are
/// written as `%20` and `%2A`, as RFC 5987 asks.
pub fn content_disposition(file_name: &str) -> (r: String)
    ensures
        r@ == "attachment; filename*=UTF-8''"@ + rfc5987(file_name.spec_bytes()),
{
    let encoded = byte_serialize(file_name.as_bytes());
    let v = to_chars(encoded.as_str());
    let mut r = owned("attachment; filename*=UTF-8''");
    let ghost prefix = r@;
    let mut i: usize = 0;
    assert(v@.subrange(0, 0) =~= Seq::<char>::empty());
    while i < v.len()
        invariant
            i <= v@.len(),
            r@ == prefix + from_form(v@.subrange(0, i as int)),
        decreases v@.len() - i,
    {
        let c = v[i];
        if c == '+' {
            append_str(&mut r, "%20");
        } else if c == '*' {
            append_str(&mut r, "%2A");
        } else {
            push_char(&mut r, c);
        }
        proof {
            reveal_strlit("%20");
            reveal_strlit("%2A");
            assert(v@.subrange(0, i + 1) =~= v@.subrange(0, i as int) + seq![c]);
            lemma_from_form_add(v@.subrange(0, i as int), seq![c]);
            lemma_from_form_one(c);
            assert(r@ =~= prefix + from_form(v@.subrange(0, i + 1)));
        }
        i += 1;
    }
    proof {
        assert(v@.subrange(0, v@.len() as int) =~= v@);
        lemma_form_to_rfc5987(file_name.spec_bytes());
    }
    r
}

} // verus!
