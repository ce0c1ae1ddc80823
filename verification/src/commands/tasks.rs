//! Task commands: persisted task list, batch-removal summaries, and the check of a
//! download's target path against files that already exist.

use vstd::prelude::*;
use crate::ctx::AppCtx;
use crate::download::task::SongInfo;
use crate::download::task_path::{
    download_file_name, get_download_settings, resolve_download_path, settings_download_dir,
    settings_template, uses_saf,
};
use crate::json::{json_decode, JsonNumber, JsonValue};
use crate::paths::{
    extension, file_stem, join, last_dot, lemma_file_name_is_plain, lemma_last_dot, name_stem, parent, path_parent,
    spec_extension, spec_file_name, spec_file_stem, spec_is_absolute, spec_join,
};
use crate::storage::store_wrapper::{load_string, loaded_string, save_string, savable, saved_string};
use crate::text::{append_str, decimal, lemma_decimal_injective, owned, push_decimal};

verus! {

/// Loads the saved task list (a JSON text; empty when none was saved).
pub fn load_tasks(doc: &JsonValue) -> (r: String)
    ensures
        r@ == loaded_string(*doc, "tasks"@),
{
    load_string(doc, "tasks")
}

/// Saves the task list.
pub fn save_tasks(doc: &mut JsonValue, tasks_json: &str)
    requires
        savable(*old(doc)),
    ensures
        saved_string(*old(doc), *final(doc), "tasks"@, tasks_json@),
{
    save_string(doc, "tasks", tasks_json)
}

/// The outcome of removing several tasks: how many succeeded, how many failed, and one
/// message `<task id>: <error>` per failure, in order.
pub struct RemoveTasksSummary {
    pub succeeded: usize,
    pub failed: usize,
    pub errors: Vec<String>,
}

impl RemoveTasksSummary {
    /// Nothing removed yet.
    pub fn new() -> (r: RemoveTasksSummary)
        ensures
            r.succeeded == 0,
            r.failed == 0,
            r.errors@.len() == 0,
    {
        RemoveTasksSummary { succeeded: 0, failed: 0, errors: Vec::new() }
    }

    /// Records the outcome of removing the task `task_id`.
    pub fn record(&mut self, task_id: &str, outcome: Result<(), String>)
        requires
            old(self).succeeded + old(self).failed < usize::MAX,
        ensures
            match outcome {
                Ok(()) => {
                    &&& final(self).succeeded == old(self).succeeded + 1
                    &&& final(self).failed == old(self).failed
                    &&& final(self).errors@ == old(self).errors@
                },
                Err(e) => {
                    &&& final(self).succeeded == old(self).succeeded
                    &&& final(self).failed == old(self).failed + 1
                    &&& final(self).errors@.len() == old(self).errors@.len() + 1
                    &&& final(self).errors@.subrange(0, old(self).errors@.len() as int) == old(self).errors@
                    &&& final(self).errors@.last()@ == task_id@ + ": "@ + e@
                },
            },
    {
        match outcome {
            Ok(()) => {
                self.succeeded = self.succeeded + 1;
            },
            Err(e) => {
                let mut msg = owned(task_id);
                append_str(&mut msg, ": ");
                append_str(&mut msg, e.as_str());
                self.errors.push(msg);
                self.failed = self.failed + 1;
                assert(self.errors@.subrange(0, old(self).errors@.len() as int) =~= old(self).errors@);
            },
        }
    }

    /// The summary as the JSON object `{"succeeded": n, "failed": n, "errors": [...]}`.
    pub fn to_json(&self) -> (r: JsonValue)
        ensures
            r matches JsonValue::Object(e) && e@.len() == 3
                && e@[0].0@ == "succeeded"@ && e@[0].1 == JsonValue::Number(JsonNumber::PosInt(self.succeeded as u64))
                && e@[1].0@ == "failed"@ && e@[1].1 == JsonValue::Number(JsonNumber::PosInt(self.failed as u64))
                && e@[2].0@ == "errors"@ && (e@[2].1 matches JsonValue::Array(items)
                    && items@.len() == self.errors@.len()
                    && forall|i: int| 0 <= i < items@.len() ==> (#[trigger] items@[i] matches JsonValue::Str(m)
                        && m@ == self.errors@[i]@)),
    {
        let mut items: Vec<JsonValue> = Vec::new();
        let mut i: usize = 0;
        while i < self.errors.len()
            invariant
                i <= self.errors@.len(),
                items@.len() == i,
                forall|j: int| 0 <= j < i ==> (#[trigger] items@[j] matches JsonValue::Str(m) && m@ == self.errors@[j]@),
            decreases self.errors@.len() - i,
        {
            items.push(JsonValue::Str(self.errors[i].clone()));
            i += 1;
        }
        let mut entries: Vec<(String, JsonValue)> = Vec::new();
        entries.push((owned("succeeded"), JsonValue::Number(JsonNumber::PosInt(self.succeeded as u64))));
        entries.push((owned("failed"), JsonValue::Number(JsonNumber::PosInt(self.failed as u64))));
        entries.push((owned("errors"), JsonValue::Array(items)));
        JsonValue::Object(entries)
    }
}

/// The answer to a path check: the target path, whether it exists, the path suggested for
/// the download, and whether the storage-access framework is used.
pub struct PathCheck {
    pub original_path: String,
    pub exists: bool,
    pub suggested_path: String,
    pub is_saf: bool,
}

/// How many of the outcomes are successes.
pub open spec fn success_count(outcomes: Seq<Result<(), String>>) -> nat
    decreases outcomes.len(),
{
    if outcomes.len() == 0 {
        0
    } else {
        success_count(outcomes.drop_last()) + if outcomes.last() is Ok { 1nat } else { 0nat }
    }
}

/// The messages `<task id>: <error>` of the failed removals, in order.
pub open spec fn failure_messages(task_ids: Seq<String>, outcomes: Seq<Result<(), String>>) -> Seq<Seq<char>>
    decreases outcomes.len(),
{
    if outcomes.len() == 0 {
        Seq::empty()
    } else {
        let earlier = failure_messages(task_ids, outcomes.drop_last());
        match outcomes.last() {
            Ok(()) => earlier,
            Err(e) => earlier.push(task_ids[outcomes.len() - 1]@ + ": "@ + e@),
        }
    }
}

/// The summary of removing the tasks `task_ids`, the i-th removal having had the i-th
/// outcome: the successes and failures counted, and the failures' messages in order.
pub fn summarize_removals(task_ids: &Vec<String>, outcomes: Vec<Result<(), String>>) -> (r: RemoveTasksSummary)
    requires
        task_ids@.len() == outcomes@.len(),
    ensures
        r.succeeded == success_count(outcomes@),
        r.succeeded + r.failed == outcomes@.len(),
        r.errors@.map_values(|e: String| e@) == failure_messages(task_ids@, outcomes@),
{
    let mut summary = RemoveTasksSummary::new();
    let n = outcomes.len();
    let mut i: usize = 0;
    assert(outcomes@.subrange(0, 0) =~= Seq::<Result<(), String>>::empty());
    assert(summary.errors@.map_values(|e: String| e@) =~= Seq::<Seq<char>>::empty());
    while i < n
        invariant
            n == outcomes@.len(),
            n == task_ids@.len(),
            i <= n,
            summary.succeeded == success_count(outcomes@.subrange(0, i as int)),
            summary.succeeded + summary.failed == i,
            summary.errors@.map_values(|e: String| e@) == failure_messages(task_ids@, outcomes@.subrange(0, i as int)),
        decreases n - i,
    {
        let ghost before = summary.errors@;
        let ghost prefix = outcomes@.subrange(0, i + 1);
        assert(prefix.drop_last() =~= outcomes@.subrange(0, i as int));
        let outcome = match &outcomes[i] {
            Ok(()) => Ok(()),
            Err(e) => Err(e.clone()),
        };
        summary.record(task_ids[i].as_str(), outcome);
        proof {
            let mapped = summary.errors@.map_values(|e: String| e@);
            let earlier = failure_messages(task_ids@, outcomes@.subrange(0, i as int));
            if outcomes@[i as int] is Err {
                assert(summary.errors@.subrange(0, before.len() as int) == before);
                assert forall|k: int| 0 <= k < before.len() implies summary.errors@[k] == before[k] by {
                    assert(summary.errors@.subrange(0, before.len() as int)[k] == summary.errors@[k]);
                }
                assert(mapped =~= earlier.push(task_ids@[i as int]@ + ": "@ + outcomes@[i as int]->Err_0@));
            } else {
                assert(mapped =~= earlier);
            }
        }
        i += 1;
    }
    assert(outcomes@.subrange(0, n as int) =~= outcomes@);
    summary
}

impl PathCheck {
    /// The answer as the JSON object
    /// `{"original_path": .., "exists": .., "suggested_path": .., "is_saf": ..}`.
    pub fn to_json(&self) -> (r: JsonValue)
        ensures
            r matches JsonValue::Object(e) && e@.len() == 4
                && e@[0].0@ == "original_path"@ && (e@[0].1 matches JsonValue::Str(s) && s@ == self.original_path@)
                && e@[1].0@ == "exists"@ && e@[1].1 == JsonValue::Bool(self.exists)
                && e@[2].0@ == "suggested_path"@ && (e@[2].1 matches JsonValue::Str(s) && s@ == self.suggested_path@)
                && e@[3].0@ == "is_saf"@ && e@[3].1 == JsonValue::Bool(self.is_saf),
    {
        let mut entries: Vec<(String, JsonValue)> = Vec::new();
        entries.push((owned("original_path"), JsonValue::Str(self.original_path.clone())));
        entries.push((owned("exists"), JsonValue::Bool(self.exists)));
        entries.push((owned("suggested_path"), JsonValue::Str(self.suggested_path.clone())));
        entries.push((owned("is_saf"), JsonValue::Bool(self.is_saf)));
        JsonValue::Object(entries)
    }
}

/// The file name tried for the `counter`-th alternative to an existing file: the file stem
/// (`unnamed` when there is none), ` (<counter>)`, then `.` and the extension when there is
/// one.
pub open spec fn alternative_name(original: Seq<char>, counter: nat) -> Seq<char> {
    let stem = match spec_file_stem(original) {
        Some(s) => s,
        None => "unnamed"@,
    };
    let ext = match spec_extension(original) {
        Some(e) => e,
        None => Seq::empty(),
    };
    let base = stem + " ("@ + decimal(counter) + ")"@;
    if ext.len() == 0 {
        base
    } else {
        base + "."@ + ext
    }
}

/// The `counter`-th alternative path: the alternative name in the directory of the
/// target path (`.` when the target path has no parent).
pub open spec fn alternative_path(original: Seq<char>, counter: nat) -> Seq<char> {
    let dir = match path_parent(original) {
        Some(p) => p,
        None => "."@,
    };
    spec_join(dir, alternative_name(original, counter))
}

/// The path a probe asks about: the target path for counter 0, else the alternative.
pub open spec fn probe_candidate(original: Seq<char>, counter: nat) -> Seq<char> {
    if counter == 0 {
        original
    } else {
        alternative_path(original, counter)
    }
}

/// The stem of an alternative name: not empty, and not starting with `/`.
proof fn lemma_alternative_stem(original: Seq<char>)
    ensures
        ({
            let stem = match spec_file_stem(original) {
                Some(s) => s,
                None => "unnamed"@,
            };
            stem.len() > 0 && stem[0] != '/'
        }),
{
    reveal_strlit("unnamed");
    lemma_file_name_is_plain(original);
    match spec_file_name(original) {
        Some(f) => {
            lemma_last_dot(f);
            assert(name_stem(f)[0] == f[0]);
        },
        None => {},
    }
}

/// Joining two relative names to the same directory gives the same path only for the same
/// name.
proof fn lemma_join_cancel(dir: Seq<char>, n1: Seq<char>, n2: Seq<char>)
    requires
        !spec_is_absolute(n1),
        !spec_is_absolute(n2),
        spec_join(dir, n1) == spec_join(dir, n2),
    ensures
        n1 == n2,
{
    let prefix = if dir.len() == 0 || dir[dir.len() - 1] == '/' { dir } else { dir + seq!['/'] };
    assert(spec_join(dir, n1) =~= prefix + n1);
    assert(spec_join(dir, n2) =~= prefix + n2);
    assert((prefix + n1).subrange(prefix.len() as int, (prefix + n1).len() as int) =~= n1);
    assert((prefix + n2).subrange(prefix.len() as int, (prefix + n2).len() as int) =~= n2);
}

/// Two names `<stem> (<d>)<tail>` that differ only in `d` are equal only for the same `d`.
proof fn lemma_numbered_name_cancel(stem: Seq<char>, tail: Seq<char>, d1: Seq<char>, d2: Seq<char>)
    requires
        stem + " ("@ + d1 + ")"@ + tail == stem + " ("@ + d2 + ")"@ + tail,
    ensures
        d1 == d2,
{
    reveal_strlit(" (");
    reveal_strlit(")");
    let n1 = stem + " ("@ + d1 + ")"@ + tail;
    let n2 = stem + " ("@ + d2 + ")"@ + tail;
    assert(" ("@.len() == 2);
    assert(")"@.len() == 1);
    assert(n1.len() == stem.len() + 2 + d1.len() + 1 + tail.len());
    assert(n2.len() == stem.len() + 2 + d2.len() + 1 + tail.len());
    assert(d1.len() == d2.len());
    let start: int = stem.len() as int + 2;
    assert(n1.subrange(start, start + d1.len()) =~= d1);
    assert(n2.subrange(start, start + d2.len()) =~= d2);
}

/// The `counter`-th alternative keeps the target's whole file name `f` and puts
/// ` (<counter>)` in before its extension. The returned `k` is where it goes: at the name's
/// final `.` when one follows the first character, else at the name's end. (A name that ends
/// with that `.`, so with an empty extension, loses the `.`.)
pub proof fn lemma_alternative_keeps_file_name(original: Seq<char>, counter: nat, f: Seq<char>) -> (k: int)
    requires
        spec_file_name(original) == Some(f),
    ensures
        0 < k <= f.len(),
        k < f.len() ==> f[k] == '.' && forall|j: int| k < j < f.len() ==> f[j] != '.',
        k == f.len() ==> forall|j: int| 0 < j < f.len() ==> f[j] != '.',
        alternative_name(original, counter) == f.subrange(0, k) + " ("@ + decimal(counter) + ")"@ + (if k + 1
            < f.len() {
            f.subrange(k, f.len() as int)
        } else {
            Seq::empty()
        }),
{
    reveal_strlit(".");
    lemma_file_name_is_plain(original);
    lemma_last_dot(f);
    let d = last_dot(f);
    if d > 0 {
        let ext = f.subrange(d + 1, f.len() as int);
        if d + 1 < f.len() {
            assert(f.subrange(d, f.len() as int) =~= "."@ + ext);
            assert(alternative_name(original, counter) =~= f.subrange(0, d) + " ("@ + decimal(counter) + ")"@ + f.subrange(
                d,
                f.len() as int,
            ));
        } else {
            assert(ext.len() == 0);
            assert(alternative_name(original, counter) =~= f.subrange(0, d) + " ("@ + decimal(counter) + ")"@ + Seq::<
                char,
            >::empty());
        }
        d
    } else {
        assert(f.subrange(0, f.len() as int) =~= f);
        assert(alternative_name(original, counter) =~= f.subrange(0, f.len() as int) + " ("@ + decimal(counter) + ")"@
            + Seq::<char>::empty());
        f.len() as int
    }
}

/// The search for a free path never tries the same alternative twice: the alternatives for
/// different counters are different paths.
pub proof fn lemma_alternatives_differ(original: Seq<char>, c1: nat, c2: nat)
    requires
        c1 != c2,
    ensures
        alternative_path(original, c1) != alternative_path(original, c2),
{
    let stem = match spec_file_stem(original) {
        Some(s) => s,
        None => "unnamed"@,
    };
    let ext = match spec_extension(original) {
        Some(e) => e,
        None => Seq::empty(),
    };
    let dir = match path_parent(original) {
        Some(p) => p,
        None => "."@,
    };
    let tail = if ext.len() == 0 { Seq::<char>::empty() } else { "."@ + ext };
    let n1 = alternative_name(original, c1);
    let n2 = alternative_name(original, c2);
    lemma_alternative_stem(original);
    assert(n1 =~= stem + " ("@ + decimal(c1) + ")"@ + tail);
    assert(n2 =~= stem + " ("@ + decimal(c2) + ")"@ + tail);
    assert(n1[0] == stem[0] && n2[0] == stem[0]);
    if alternative_path(original, c1) == alternative_path(original, c2) {
        lemma_join_cancel(dir, n1, n2);
        lemma_numbered_name_cancel(stem, tail, decimal(c1), decimal(c2));
        lemma_decimal_injective(c1, c2);
    }
}

/// A search for a free download path: it asks whether `candidate` exists.
pub struct ConflictProbe {
    original: String,
    counter: u64,
    candidate: String,
}

impl ConflictProbe {
    #[verifier::type_invariant]
    closed spec fn consistent(self) -> bool {
        self.candidate@ == probe_candidate(self.original@, self.counter as nat)
    }

    /// The download's target path.
    pub closed spec fn original_view(&self) -> Seq<char> {
        self.original@
    }

    /// How many alternatives have been tried (0 while the target path itself is asked about).
    pub closed spec fn counter_view(&self) -> nat {
        self.counter as nat
    }

    /// The path whose existence decides the next step.
    pub fn candidate(&self) -> (r: &str)
        ensures
            r@ == probe_candidate(self.original_view(), self.counter_view()),
    {
        proof {
            use_type_invariant(self);
        }
        self.candidate.as_str()
    }

    /// How many alternatives have been tried.
    pub fn counter(&self) -> (r: u64)
        ensures
            r as nat == self.counter_view(),
    {
        self.counter
    }

    /// The alternative path for `counter`.
    fn alternative(original: &str, counter: u64) -> (r: String)
        ensures
            r@ == alternative_path(original@, counter as nat),
    {
        let stem = match file_stem(original) {
            Some(s) => s,
            None => owned("unnamed"),
        };
        let ext = match extension(original) {
            Some(e) => e,
            None => String::new(),
        };
        let mut name = stem;
        append_str(&mut name, " (");
        push_decimal(&mut name, counter);
        append_str(&mut name, ")");
        if !ext.as_str().is_empty() {
            append_str(&mut name, ".");
            append_str(&mut name, ext.as_str());
        }
        let dir = match parent(original) {
            Some(p) => p,
            None => owned("."),
        };
        join(dir.as_str(), name.as_str())
    }

    /// Takes the answer to "does the candidate exist?": a missing candidate ends the search
    /// (the target path when it is itself missing), an existing one moves to the next
    /// alternative.
    pub fn advance(self, exists: bool) -> (r: ProbeStep)
        requires
            self.counter_view() < u64::MAX,
        ensures
            !exists ==> (r matches ProbeStep::Done(c) && {
                &&& c.original_path@ == self.original_view()
                &&& c.exists == (self.counter_view() > 0)
                &&& c.suggested_path@ == probe_candidate(self.original_view(), self.counter_view())
                &&& !c.is_saf
            }),
            exists ==> (r matches ProbeStep::Check(p) && {
                &&& p.original_view() == self.original_view()
                &&& p.counter_view() == self.counter_view() + 1
            }),
    {
        proof {
            use_type_invariant(&self);
        }
        if !exists {
            let exists_now = self.counter > 0;
            ProbeStep::Done(PathCheck {
                original_path: self.original,
                exists: exists_now,
                suggested_path: self.candidate,
                is_saf: false,
            })
        } else {
            let next = self.counter + 1;
            let candidate = ConflictProbe::alternative(self.original.as_str(), next);
            ProbeStep::Check(ConflictProbe { original: self.original, counter: next, candidate })
        }
    }
}

/// A step of the path check: finished, or waiting for whether a path exists.
pub enum ProbeStep {
    Done(PathCheck),
    Check(ConflictProbe),
}

/// Starts checking the target path of a download.
///
/// The target is resolved from the settings (`settings_text` is the `settings` entry of the
/// data document) as for the download itself. With the storage-access framework there
/// is no file to check and the answer is immediate; otherwise the returned probe asks
/// whether the target exists, then whether `<stem> (1).<ext>`, `<stem> (2).<ext>`, ...
/// exist, and suggests the first path that does not.
pub fn check_download_path(
    ctx: &AppCtx,
    settings_text: &str,
    song_id: u64,
    song_mid: String,
    song_title: String,
    artist: String,
    album: String,
    cover_url: String,
    quality_filename: String,
    quality: String,
    on_android: bool,
) -> (r: ProbeStep)
    ensures
        ({
            let song = SongInfo { title: song_title, artist, album, quality, cover_url };
            let dir = settings_download_dir(ctx.download_dir_view(), json_decode(settings_text@));
            let name = download_file_name(settings_template(json_decode(settings_text@)), song, quality_filename@);
            match r {
                ProbeStep::Done(c) => {
                    &&& c.is_saf
                    &&& !c.exists
                    &&& c.original_path@ == name
                    &&& c.suggested_path@ == name
                },
                ProbeStep::Check(p) => {
                    &&& p.counter_view() == 0
                    &&& p.original_view() == spec_join(dir, name)
                },
            }
        }),
        ({
            let song = SongInfo { title: song_title, artist, album, quality, cover_url };
            let dir = settings_download_dir(ctx.download_dir_view(), json_decode(settings_text@));
            let saf_uri = crate::download::task_path::non_empty_setting(json_decode(settings_text@), "safFolderUri"@);
            (r is Done) == uses_saf(dir, saf_uri, on_android)
        }),
{
    let song_info = SongInfo { title: song_title, artist, album, quality, cover_url };
    let (dir_setting, template_setting, saf_uri_setting, _, _) = get_download_settings(ctx, settings_text);
    let saf_ref: Option<&str> = match &saf_uri_setting {
        Some(u) => Some(u.as_str()),
        None => None,
    };
    let (is_saf, download_dir, _saf_folder_uri) = resolve_download_path(
        dir_setting.as_str(),
        template_setting.as_str(),
        saf_ref,
        &song_info,
        quality_filename.as_str(),
        on_android,
    );
    if is_saf {
        let suggested = download_dir.clone();
        ProbeStep::Done(PathCheck {
            original_path: download_dir,
            exists: false,
            suggested_path: suggested,
            is_saf: true,
        })
    } else {
        let candidate = download_dir.clone();
        ProbeStep::Check(ConflictProbe { original: download_dir, counter: 0, candidate })
    }
}

} // verus!
