//! The steps that turn a descriptor into a ready executable: search path,
//! cache, download, unpack, permissions, and a last look for the file.
//!
//! The library decides; the caller performs each requested action and
//! answers with an event, until the machine reports a ready path or a failure.
use vstd::prelude::*;
use vstd::string::*;

use crate::text::concat3;
use crate::tools::{archive_kind, kind_of_url, ArchiveKind, ExeMeta, ToolError};

verus! {

/// The cache entry name of a descriptor: `<name>-<version>`.
pub open spec fn entry_name(m: ExeMeta) -> Seq<char> {
    m.name@ + "-"@ + m.version@
}

/// The directory holding one version of one tool, nested one level below its entry.
pub open spec fn entry_dir(root: Seq<char>, m: ExeMeta) -> Seq<char> {
    root + "/"@ + entry_name(m) + "/"@ + entry_name(m)
}

impl ExeMeta {
    /// `<name>-<version>`, the name of the tool's cache entry.
    pub fn get_name(&self) -> (r: String)
        ensures
            r@ == entry_name(*self),
    {
        concat3(self.name.as_str(), "-", self.version.as_str())
    }

    /// The cache entry below `cache_dir`, a directory given for this tool and version.
    pub fn with_cache_dir(self, cache_dir: &str) -> (r: ExeCache)
        ensures
            r.exe_dir@ == cache_dir@ + "/"@ + entry_name(self),
            r.meta == self,
    {
        let name = self.get_name();
        let exe_dir = concat3(cache_dir, "/", name.as_str());
        ExeCache { exe_dir, meta: self }
    }
}

/// One version of one tool in the cache.
pub struct ExeCache {
    pub exe_dir: String,
    pub meta: ExeMeta,
}

impl ExeCache {
    /// The cache entry of a descriptor below the cache root.
    pub fn new(cache_root: &str, meta: ExeMeta) -> (r: ExeCache)
        ensures
            r.exe_dir@ == entry_dir(cache_root@, meta),
            r.meta == meta,
    {
        let name = meta.get_name();
        let outer = concat3(cache_root, "/", name.as_str());
        meta.with_cache_dir(outer.as_str())
    }

    /// Where the executable is expected inside the entry.
    pub fn exe_path(&self) -> (r: String)
        ensures
            r@ == self.exe_dir@ + "/"@ + self.meta.exe@,
    {
        concat3(self.exe_dir.as_str(), "/", self.meta.exe.as_str())
    }

    /// The executable's path when it is present in the entry; otherwise the
    /// error that names the directory searched.
    pub fn exe_in_cache(&self, present: bool) -> (r: Result<String, ToolError>)
        ensures
            present ==> r is Ok && r->Ok_0@ == self.exe_dir@ + "/"@ + self.meta.exe@,
            !present ==> error_matches(r->Err_0, self.meta, self.exe_dir@, Failure::ExtractedButNotFound, Seq::empty()),
            !present ==> r is Err,
    {
        if present {
            Ok(self.exe_path())
        } else {
            Err(
                ToolError::ExtractedButNotFound {
                    name: self.meta.get_name(),
                    dir: self.exe_dir.clone(),
                    manual: self.meta.manual.clone(),
                },
            )
        }
    }
}

/// Where an acquisition stands.
#[derive(Debug, Clone, Copy, PartialEq, Eq, Structural)]
pub enum Stage {
    SearchPath,
    CheckCache,
    Download,
    Extract,
    SetPermissions,
    Verify,
    Finished,
}

/// The caller's answer to the action last requested.
#[derive(Debug, Clone, Copy, PartialEq, Eq, Structural)]
pub enum Event {
    /// The executable was found (on the search path, or at its cache path).
    Found,
    /// The executable was not found.
    Absent,
    /// A download, unpack or permission change succeeded.
    Completed,
    /// A download, unpack or permission change failed.
    Failed,
}

/// Why an acquisition ended without a path.
#[derive(Debug, Clone, Copy, PartialEq, Eq, Structural)]
pub enum Failure {
    MissingRequiredTool,
    DownloadFailed,
    ExtractFailed,
    ExtractedButNotFound,
}

/// What the caller is asked to do next.
#[derive(Debug, Clone, Copy, PartialEq, Eq, Structural)]
pub enum Action {
    /// Look the command name up on the executable search path.
    LookUpSearchPath,
    /// Test whether the executable's cache path exists.
    CheckExecutable,
    /// Fetch the descriptor's download address.
    Download,
    /// Unpack the download into the entry directory, or, for a raw download,
    /// write it to the executable's cache path.
    Unpack(ArchiveKind),
    /// Make the executable readable and executable by owner and group only.
    SetReadExecute,
    /// Done: use the path found on the search path.
    ReadyFromSearchPath,
    /// Done: use the executable's cache path.
    ReadyFromCache,
    /// Done: the acquisition failed.
    Fail(Failure),
    /// Nothing more to do.
    Halt,
}

/// The action a stage waits on.
pub open spec fn request_of(s: Stage, kind: ArchiveKind) -> Action {
    match s {
        Stage::SearchPath => Action::LookUpSearchPath,
        Stage::CheckCache => Action::CheckExecutable,
        Stage::Download => Action::Download,
        Stage::Extract => Action::Unpack(kind),
        Stage::SetPermissions => Action::SetReadExecute,
        Stage::Verify => Action::CheckExecutable,
        Stage::Finished => Action::Halt,
    }
}

/// One transition: an event that does not answer the pending action leaves
/// the stage as it is and repeats the request.
pub open spec fn next(s: Stage, e: Event, downloads: bool, windows: bool, kind: ArchiveKind) -> (Stage, Action) {
    match (s, e) {
        (Stage::SearchPath, Event::Found) => (Stage::Finished, Action::ReadyFromSearchPath),
        (Stage::SearchPath, Event::Absent) => if downloads {
            (Stage::CheckCache, Action::CheckExecutable)
        } else {
            (Stage::Finished, Action::Fail(Failure::MissingRequiredTool))
        },
        (Stage::CheckCache, Event::Found) => (Stage::Finished, Action::ReadyFromCache),
        (Stage::CheckCache, Event::Absent) => (Stage::Download, Action::Download),
        (Stage::Download, Event::Completed) => (Stage::Extract, Action::Unpack(kind)),
        (Stage::Download, Event::Failed) => (Stage::Finished, Action::Fail(Failure::DownloadFailed)),
        (Stage::Extract, Event::Completed) => if windows {
            (Stage::Verify, Action::CheckExecutable)
        } else {
            (Stage::SetPermissions, Action::SetReadExecute)
        },
        (Stage::Extract, Event::Failed) => (Stage::Finished, Action::Fail(Failure::ExtractFailed)),
        (Stage::SetPermissions, Event::Completed) => (Stage::Verify, Action::CheckExecutable),
        (Stage::SetPermissions, Event::Failed) => (Stage::Finished, Action::Fail(Failure::ExtractFailed)),
        (Stage::Verify, Event::Found) => (Stage::Finished, Action::ReadyFromCache),
        (Stage::Verify, Event::Absent) => (Stage::Finished, Action::Fail(Failure::ExtractedButNotFound)),
        _ => (s, request_of(s, kind)),
    }
}

/// The actions answered to a run of events, starting at stage `s`.
pub open spec fn actions(s: Stage, events: Seq<Event>, downloads: bool, windows: bool, kind: ArchiveKind) -> Seq<Action>
    decreases events.len(),
{
    if events.len() == 0 {
        Seq::empty()
    } else {
        let (t, a) = next(s, events[0], downloads, windows, kind);
        seq![a] + actions(t, events.drop_first(), downloads, windows, kind)
    }
}

pub open spec fn error_matches(e: ToolError, m: ExeMeta, dir: Seq<char>, f: Failure, reason: Seq<char>) -> bool {
    match (f, e) {
        (Failure::MissingRequiredTool, ToolError::MissingRequiredTool { name, manual }) =>
            name@ == m.name@ && manual@ == m.manual@,
        (Failure::DownloadFailed, ToolError::DownloadFailed { name, url, reason: r, manual }) =>
            name@ == entry_name(m) && url@ == m.url@ && r@ == reason && manual@ == m.manual@,
        (Failure::ExtractFailed, ToolError::ExtractFailed { name, dir: d, reason: r, manual }) =>
            name@ == entry_name(m) && d@ == dir && r@ == reason && manual@ == m.manual@,
        (Failure::ExtractedButNotFound, ToolError::ExtractedButNotFound { name, dir: d, manual }) =>
            name@ == entry_name(m) && d@ == dir && manual@ == m.manual@,
        _ => false,
    }
}

/// One acquisition of one tool.
pub struct Acquisition {
    pub cache: ExeCache,
    pub downloads_enabled: bool,
    pub windows: bool,
    pub stage: Stage,
}

impl Acquisition {
    pub open spec fn kind(&self) -> ArchiveKind {
        kind_of_url(self.cache.meta.url@)
    }

    /// A new acquisition, which first asks for a search path lookup.
    pub fn new(cache: ExeCache, downloads_enabled: bool, windows: bool) -> (r: Acquisition)
        ensures
            r.cache == cache,
            r.downloads_enabled == downloads_enabled,
            r.windows == windows,
            r.stage == Stage::SearchPath,
    {
        Acquisition { cache, downloads_enabled, windows, stage: Stage::SearchPath }
    }

    /// The action the acquisition waits on.
    pub fn pending(&self) -> (r: Action)
        ensures
            r == request_of(self.stage, self.kind()),
    {
        match self.stage {
            Stage::SearchPath => Action::LookUpSearchPath,
            Stage::CheckCache => Action::CheckExecutable,
            Stage::Download => Action::Download,
            Stage::Extract => Action::Unpack(archive_kind(self.cache.meta.url.as_str())),
            Stage::SetPermissions => Action::SetReadExecute,
            Stage::Verify => Action::CheckExecutable,
            Stage::Finished => Action::Halt,
        }
    }

    /// Takes the caller's answer to the pending action and returns the next one.
    pub fn step(&mut self, event: Event) -> (r: Action)
        ensures
            (final(self).stage, r) == next(
                old(self).stage,
                event,
                old(self).downloads_enabled,
                old(self).windows,
                old(self).kind(),
            ),
            final(self).cache == old(self).cache,
            final(self).downloads_enabled == old(self).downloads_enabled,
            final(self).windows == old(self).windows,
    {
        let (stage, action) = match (self.stage, event) {
            (Stage::SearchPath, Event::Found) => (Stage::Finished, Action::ReadyFromSearchPath),
            (Stage::SearchPath, Event::Absent) => {
                if self.downloads_enabled {
                    (Stage::CheckCache, Action::CheckExecutable)
                } else {
                    (Stage::Finished, Action::Fail(Failure::MissingRequiredTool))
                }
            },
            (Stage::CheckCache, Event::Found) => (Stage::Finished, Action::ReadyFromCache),
            (Stage::CheckCache, Event::Absent) => (Stage::Download, Action::Download),
            (Stage::Download, Event::Completed) => (
                Stage::Extract,
                Action::Unpack(archive_kind(self.cache.meta.url.as_str())),
            ),
            (Stage::Download, Event::Failed) => (
                Stage::Finished,
                Action::Fail(Failure::DownloadFailed),
            ),
            (Stage::Extract, Event::Completed) => {
                if self.windows {
                    (Stage::Verify, Action::CheckExecutable)
                } else {
                    (Stage::SetPermissions, Action::SetReadExecute)
                }
            },
            (Stage::Extract, Event::Failed) => (Stage::Finished, Action::Fail(Failure::ExtractFailed)),
            (Stage::SetPermissions, Event::Completed) => (Stage::Verify, Action::CheckExecutable),
            (Stage::SetPermissions, Event::Failed) => (
                Stage::Finished,
                Action::Fail(Failure::ExtractFailed),
            ),
            (Stage::Verify, Event::Found) => (Stage::Finished, Action::ReadyFromCache),
            (Stage::Verify, Event::Absent) => (
                Stage::Finished,
                Action::Fail(Failure::ExtractedButNotFound),
            ),
            _ => (self.stage, self.pending()),
        };
        self.stage = stage;
        action
    }

    /// The error a failure reports, with the tool, the address or directory
    /// involved, the cause given by the caller, and the manual-install advice.
    pub fn error_for(&self, failure: Failure, reason: &str) -> (r: ToolError)
        ensures
            error_matches(r, self.cache.meta, self.cache.exe_dir@, failure, reason@),
    {
        let meta = &self.cache.meta;
        match failure {
            Failure::MissingRequiredTool => ToolError::MissingRequiredTool {
                name: meta.name.clone(),
                manual: meta.manual.clone(),
            },
            Failure::DownloadFailed => ToolError::DownloadFailed {
                name: meta.get_name(),
                url: meta.url.clone(),
                reason: String::from_str(reason),
                manual: meta.manual.clone(),
            },
            Failure::ExtractFailed => ToolError::ExtractFailed {
                name: meta.get_name(),
                dir: self.cache.exe_dir.clone(),
                reason: String::from_str(reason),
                manual: meta.manual.clone(),
            },
            Failure::ExtractedButNotFound => ToolError::ExtractedButNotFound {
                name: meta.get_name(),
                dir: self.cache.exe_dir.clone(),
                manual: meta.manual.clone(),
            },
        }
    }
}

/// Once finished, an acquisition asks for nothing more, whatever it is told.
pub proof fn lemma_finished_halts(events: Seq<Event>, d: bool, w: bool, k: ArchiveKind)
    ensures
        actions(Stage::Finished, events, d, w, k).len() == events.len(),
        forall|i: int| 0 <= i < events.len() ==> #[trigger] actions(Stage::Finished, events, d, w, k)[i] == Action::Halt,
    decreases events.len(),
{
    if events.len() > 0 {
        lemma_finished_halts(events.drop_first(), d, w, k);
        let a = actions(Stage::Finished, events, d, w, k);
        let rest = actions(Stage::Finished, events.drop_first(), d, w, k);
        assert forall|i: int| 0 <= i < events.len() implies #[trigger] a[i] == Action::Halt by {
            if i > 0 {
                assert(a[i] == rest[i - 1]);
            }
        }
    }
}

/// With downloads disabled, a tool absent from the search path fails at once
/// with `MissingRequiredTool`, and nothing is downloaded or unpacked.
pub proof fn lemma_disabled_downloads_fail_fast(events: Seq<Event>, w: bool, k: ArchiveKind)
    requires
        events.len() > 0,
        events[0] == Event::Absent,
    ensures
        actions(Stage::SearchPath, events, false, w, k)[0] == Action::Fail(Failure::MissingRequiredTool),
        forall|i: int| 0 <= i < events.len() ==> {
            let a = #[trigger] actions(Stage::SearchPath, events, false, w, k)[i];
            a != Action::Download && a != Action::Unpack(k)
        },
{
    lemma_finished_halts(events.drop_first(), false, w, k);
    let a = actions(Stage::SearchPath, events, false, w, k);
    let rest = actions(Stage::Finished, events.drop_first(), false, w, k);
    assert(a =~= seq![Action::Fail(Failure::MissingRequiredTool)] + rest);
    assert forall|i: int| 0 <= i < events.len() implies a[i] != Action::Download && a[i] != Action::Unpack(k) by {
        if i > 0 {
            assert(a[i] == rest[i - 1]);
        }
    }
}

/// A tool absent from the search path whose executable is already in its
/// cache entry is ready from the cache at the second answer, and nothing is
/// downloaded or unpacked.
pub proof fn lemma_cache_reuse(events: Seq<Event>, w: bool, k: ArchiveKind)
    requires
        events.len() >= 2,
        events[0] == Event::Absent,
        events[1] == Event::Found,
    ensures
        actions(Stage::SearchPath, events, true, w, k)[0] == Action::CheckExecutable,
        actions(Stage::SearchPath, events, true, w, k)[1] == Action::ReadyFromCache,
        forall|i: int| 0 <= i < events.len() ==> {
            let a = #[trigger] actions(Stage::SearchPath, events, true, w, k)[i];
            a != Action::Download && a != Action::Unpack(k)
        },
{
    let tail = events.drop_first().drop_first();
    lemma_finished_halts(tail, true, w, k);
    let a = actions(Stage::SearchPath, events, true, w, k);
    let rest = actions(Stage::Finished, tail, true, w, k);
    assert(events.drop_first()[0] == Event::Found);
    assert(events.drop_first().drop_first() == tail);
    assert(actions(Stage::CheckCache, events.drop_first(), true, w, k) =~= seq![Action::ReadyFromCache] + rest);
    assert(a =~= seq![Action::CheckExecutable, Action::ReadyFromCache] + rest);
    assert forall|i: int| 0 <= i < events.len() implies a[i] != Action::Download && a[i] != Action::Unpack(k) by {
        if i > 1 {
            assert(a[i] == rest[i - 2]);
        }
    }
}

/// On a fresh cache with downloads enabled and a host other than Windows,
/// a successful run downloads once, unpacks once, sets the permissions, finds
/// the executable and reports it ready from the cache.
pub proof fn lemma_fresh_install(k: ArchiveKind)
    ensures
        actions(
            Stage::SearchPath,
            seq![Event::Absent, Event::Absent, Event::Completed, Event::Completed, Event::Completed, Event::Found],
            true,
            false,
            k,
        ) == seq![
            Action::CheckExecutable,
            Action::Download,
            Action::Unpack(k),
            Action::SetReadExecute,
            Action::CheckExecutable,
            Action::ReadyFromCache,
        ],
{
    let e = seq![Event::Absent, Event::Absent, Event::Completed, Event::Completed, Event::Completed, Event::Found];
    let e1 = e.drop_first();
    let e2 = e1.drop_first();
    let e3 = e2.drop_first();
    let e4 = e3.drop_first();
    let e5 = e4.drop_first();
    let e6 = e5.drop_first();
    assert(e6.len() == 0);
    assert(actions(Stage::Finished, e6, true, false, k) =~= Seq::<Action>::empty());
    assert(e5[0] == Event::Found);
    assert(e4[0] == Event::Completed);
    assert(e3[0] == Event::Completed);
    assert(e2[0] == Event::Completed);
    assert(e1[0] == Event::Absent);
    assert(actions(Stage::Verify, e5, true, false, k) =~= seq![Action::ReadyFromCache]);
    assert(actions(Stage::SetPermissions, e4, true, false, k) =~= seq![Action::CheckExecutable, Action::ReadyFromCache]);
    assert(actions(Stage::Extract, e3, true, false, k) =~= seq![Action::SetReadExecute, Action::CheckExecutable, Action::ReadyFromCache]);
    assert(actions(Stage::Download, e2, true, false, k) =~= seq![Action::Unpack(k), Action::SetReadExecute, Action::CheckExecutable, Action::ReadyFromCache]);
    assert(actions(Stage::CheckCache, e1, true, false, k) =~= seq![Action::Download, Action::Unpack(k), Action::SetReadExecute, Action::CheckExecutable, Action::ReadyFromCache]);
    assert(actions(Stage::SearchPath, e, true, false, k) =~= seq![Action::CheckExecutable, Action::Download, Action::Unpack(k), Action::SetReadExecute, Action::CheckExecutable, Action::ReadyFromCache]);
}

} // verus!
