//! Opening the target file of a download.
//!
//! A fresh download (nothing downloaded yet) creates or truncates the file. A resumed
//! download opens the file for appending and checks its length: a file whose length differs
//! from what was already downloaded, or one whose length cannot be read, is truncated and
//! the download starts over. The file operations are carried out by the caller, which reports
//! their outcome back.

use vstd::prelude::*;
use crate::text::owned;

verus! {

/// How the target file is opened.
pub enum OpenMode {
    /// Write, create and truncate.
    Truncate,
    /// Create and append.
    Append,
}

/// What to do next.
pub enum OpenAction {
    /// Open the file in this mode and report whether it worked.
    Open(OpenMode),
    /// Read the length of the opened file and report it (none when it cannot be read).
    QueryLength,
    /// Write through the last opened file; the download continues from this offset.
    Use(u64),
    /// Give up; this message is reported to the user as the task's error.
    Fail(String),
}

/// Where the opening stands.
pub enum OpenPhase {
    Creating,
    Appending,
    Checking,
    Resetting,
    Finished,
}

/// The state of opening the target file of a download.
pub struct OpenFilePlan {
    pub phase: OpenPhase,
    pub downloaded: u64,
}

/// The message for a fresh file that cannot be created.
pub open spec fn create_failed_message() -> Seq<char> {
    "文件创建失败，请检查磁盘空间"@
}

/// The message for a file that cannot be reset.
pub open spec fn reset_failed_message() -> Seq<char> {
    "文件异常，请重试"@
}

/// The message for a resumed file that cannot be opened.
pub open spec fn access_failed_message() -> Seq<char> {
    "文件访问失败"@
}

/// Starts opening the target file of a download of which `downloaded` bytes are already
/// written.
pub fn open_download_file(downloaded: u64) -> (r: (OpenFilePlan, OpenAction))
    ensures
        r.0.downloaded == downloaded,
        downloaded == 0 ==> (r.0.phase is Creating && (r.1 matches OpenAction::Open(OpenMode::Truncate))),
        downloaded != 0 ==> (r.0.phase is Appending && (r.1 matches OpenAction::Open(OpenMode::Append))),
{
    if downloaded == 0 {
        (OpenFilePlan { phase: OpenPhase::Creating, downloaded }, OpenAction::Open(OpenMode::Truncate))
    } else {
        (OpenFilePlan { phase: OpenPhase::Appending, downloaded }, OpenAction::Open(OpenMode::Append))
    }
}

impl OpenFilePlan {
    /// Takes the outcome of the requested open.
    pub fn opened(self, ok: bool) -> (r: (OpenFilePlan, OpenAction))
        requires
            self.phase is Creating || self.phase is Appending || self.phase is Resetting,
        ensures
            (self.phase is Creating && ok) ==> (r.0.phase is Finished && (r.1 matches OpenAction::Use(d)
                && d == self.downloaded)),
            (self.phase is Creating && !ok) ==> (r.0.phase is Finished && (r.1 matches OpenAction::Fail(m)
                && m@ == create_failed_message())),
            (self.phase is Appending && ok) ==> (r.0.phase is Checking && r.0.downloaded == self.downloaded
                && r.1 is QueryLength),
            (self.phase is Appending && !ok) ==> (r.0.phase is Finished && (r.1 matches OpenAction::Fail(m)
                && m@ == access_failed_message())),
            (self.phase is Resetting && ok) ==> (r.0.phase is Finished && r.0.downloaded == 0
                && (r.1 matches OpenAction::Use(d) && d == 0)),
            (self.phase is Resetting && !ok) ==> (r.0.phase is Finished && (r.1 matches OpenAction::Fail(m)
                && m@ == reset_failed_message())),
    {
        let downloaded = self.downloaded;
        match self.phase {
            OpenPhase::Creating => {
                if ok {
                    (OpenFilePlan { phase: OpenPhase::Finished, downloaded }, OpenAction::Use(downloaded))
                } else {
                    (
                        OpenFilePlan { phase: OpenPhase::Finished, downloaded },
                        OpenAction::Fail(owned("文件创建失败，请检查磁盘空间")),
                    )
                }
            },
            OpenPhase::Appending => {
                if ok {
                    (OpenFilePlan { phase: OpenPhase::Checking, downloaded }, OpenAction::QueryLength)
                } else {
                    (OpenFilePlan { phase: OpenPhase::Finished, downloaded }, OpenAction::Fail(owned("文件访问失败")))
                }
            },
            _ => {
                if ok {
                    (OpenFilePlan { phase: OpenPhase::Finished, downloaded: 0 }, OpenAction::Use(0))
                } else {
                    (
                        OpenFilePlan { phase: OpenPhase::Finished, downloaded },
                        OpenAction::Fail(owned("文件异常，请重试")),
                    )
                }
            },
        }
    }

    /// Takes the length of the file opened for appending: when it is known and equals the
    /// downloaded amount, the file is used as it is; on any mismatch, or when the length is
    /// unknown, it is reopened truncated.
    pub fn length_known(self, len: Option<u64>) -> (r: (OpenFilePlan, OpenAction))
        requires
            self.phase is Checking,
        ensures
            (len matches Some(l) && l == self.downloaded) ==> (r.0.phase is Finished
                && r.0.downloaded == self.downloaded && (r.1 matches OpenAction::Use(d) && d == self.downloaded)),
            !(len matches Some(l) && l == self.downloaded) ==> (r.0.phase is Resetting
                && r.0.downloaded == self.downloaded && r.1 matches OpenAction::Open(OpenMode::Truncate)),
    {
        let downloaded = self.downloaded;
        match len {
            Some(l) => {
                if l != downloaded {
                    (OpenFilePlan { phase: OpenPhase::Resetting, downloaded }, OpenAction::Open(OpenMode::Truncate))
                } else {
                    (OpenFilePlan { phase: OpenPhase::Finished, downloaded }, OpenAction::Use(downloaded))
                }
            },
            None => (OpenFilePlan { phase: OpenPhase::Resetting, downloaded }, OpenAction::Open(OpenMode::Truncate)),
        }
    }
}

} // verus!
