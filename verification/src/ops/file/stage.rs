//! `file stage`: stages files for the next commit, recovering from a dangling staged
//! anchor.
use vstd::prelude::*;
use crate::error::Result;
use crate::events::{
    check_stream, is_stream_failure, last_revision, lemma_fold_step, lemma_take_all, of_kind, EventKind,
    EventStream, LoreEvent,
};
use crate::error::LoreError;
use crate::events::copy_strings;
use crate::global::{flag, flag_of};
use crate::paths::{resolved, resolve_paths};
use crate::text::{chars_of, contains, is_text, spec_contains, string_views};

verus! {

/// How a change of letter case alone in a staged path is handled.
#[derive(Debug, Clone, Copy, PartialEq, Eq, Structural)]
pub enum CaseChange {
    /// Refuse it (the engine's 0).
    Error,
    /// Change the file system to match the repository (1).
    Keep,
    /// Change the repository to match the file system (2).
    Rename,
}

impl CaseChange {
    /// The engine's number for this handling.
    pub open spec fn code(self) -> u32 {
        match self {
            CaseChange::Error => 0,
            CaseChange::Keep => 1,
            CaseChange::Rename => 2,
        }
    }

    /// The engine's number for this handling.
    pub fn as_u32(self) -> (r: u32)
        ensures
            r == self.code(),
    {
        match self {
            CaseChange::Error => 0,
            CaseChange::Keep => 1,
            CaseChange::Rename => 2,
        }
    }
}

impl Default for CaseChange {
    /// Refusing is the default.
    fn default() -> (r: Self)
        ensures
            r == CaseChange::Error,
    {
        CaseChange::Error
    }
}

/// Arguments of `file stage`.
#[derive(Debug)]
pub struct FileStageArgs {
    /// The files staged, relative to the repository root or absolute.
    pub paths: Vec<String>,
    pub case_change: CaseChange,
    /// Scan directories for changes.
    pub scan: bool,
}

impl Clone for FileStageArgs {
    fn clone(&self) -> (r: Self)
        ensures
            r.paths@ == self.paths@,
            r.case_change == self.case_change,
            r.scan == self.scan,
    {
        FileStageArgs { paths: copy_strings(&self.paths), case_change: self.case_change, scan: self.scan }
    }
}

/// The engine's arguments of `file stage`.
#[derive(Debug)]
pub struct LoreFileStageArgs {
    pub paths: Vec<String>,
    pub case_change: u32,
    pub scan: u8,
}

impl FileStageArgs {
    /// The engine's arguments, with every path resolved against `repo_root`:
    /// the engine only stages absolute paths, and callers send paths
    /// relative to the repository root.
    pub fn into_lore(self, repo_root: &str) -> (r: LoreFileStageArgs)
        ensures
            r.paths.len() == self.paths.len(),
            forall|i: int| 0 <= i < self.paths.len() ==> #[trigger] r.paths[i]@ == resolved(repo_root@, self.paths[i]@),
            r.case_change == self.case_change.code(),
            r.scan == flag(self.scan),
    {
        LoreFileStageArgs {
            paths: resolve_paths(repo_root, &self.paths),
            case_change: self.case_change.as_u32(),
            scan: flag_of(self.scan),
        }
    }
}

/// What staging did to a file.
#[derive(Debug, Clone, Copy, PartialEq, Eq, Structural)]
pub enum FileStageAction {
    Keep,
    Add,
    Delete,
    Move,
    Copy,
}

/// The staging action of an engine file action.
pub open spec fn stage_action(a: crate::events::FileAction) -> FileStageAction {
    match a {
        crate::events::FileAction::Keep => FileStageAction::Keep,
        crate::events::FileAction::Add => FileStageAction::Add,
        crate::events::FileAction::Delete => FileStageAction::Delete,
        crate::events::FileAction::Move => FileStageAction::Move,
        crate::events::FileAction::Copy => FileStageAction::Copy,
    }
}

/// The staging action of an engine file action.
pub fn map_action(a: crate::events::FileAction) -> (r: FileStageAction)
    ensures
        r == stage_action(a),
{
    match a {
        crate::events::FileAction::Keep => FileStageAction::Keep,
        crate::events::FileAction::Add => FileStageAction::Add,
        crate::events::FileAction::Delete => FileStageAction::Delete,
        crate::events::FileAction::Move => FileStageAction::Move,
        crate::events::FileAction::Copy => FileStageAction::Copy,
    }
}

/// One file staged.
#[derive(Debug, Clone)]
pub struct FileStageEntry {
    pub path: String,
    /// The previous path of a moved file; empty otherwise.
    pub from_path: String,
    pub action: FileStageAction,
}

/// The files staged and the staged revision.
#[derive(Debug, Clone)]
pub struct FileStageResult {
    pub files: Vec<FileStageEntry>,
    /// The staged revision; empty when none was reported.
    pub revision: String,
    /// True when a dangling staged anchor was detected and the staged set
    /// was recovered during this stage.
    pub healed: bool,
}

/// True when `x` is the file that event `e` reports.
pub open spec fn staged_entry_of(x: FileStageEntry, e: LoreEvent) -> bool {
    e matches LoreEvent::FileStageFile(d) && x.path == d.path && x.from_path == d.from_path
        && x.action == stage_action(d.action)
}

/// True when `xs` are the files that `evs` report, in order.
pub open spec fn staged_entries_of(xs: Seq<FileStageEntry>, evs: Seq<LoreEvent>) -> bool {
    xs.len() == evs.len() && forall|j: int| 0 <= j < evs.len() ==> staged_entry_of(#[trigger] xs[j], evs[j])
}

/// The result of `file stage`, read off its event stream: one file per
/// `FileStageFile` event, and the revision of the last `FileStageRevision`
/// event.
pub fn stage_from_events(stream: &EventStream, status: &str) -> (r: Result<FileStageResult>)
    ensures
        !stream.ok ==> is_stream_failure(r, *stream, "file stage"@, status@),
        stream.ok ==> (r matches Ok(res) && staged_entries_of(res.files@, of_kind(stream.events@, EventKind::FileStageFile))
            && res.revision@ == last_revision(stream.events@, EventKind::FileStageRevision) && !res.healed),
{
    if let Err(e) = check_stream(stream, "file stage", status) {
        return Err(e);
    }
    let ghost evs = stream.events@;
    let mut files: Vec<FileStageEntry> = Vec::new();
    let mut revision = String::new();
    let mut i: usize = 0;
    while i < stream.events.len()
        invariant
            i <= stream.events.len(),
            evs == stream.events@,
            staged_entries_of(files@, of_kind(evs.take(i as int), EventKind::FileStageFile)),
            revision@ == last_revision(evs.take(i as int), EventKind::FileStageRevision),
        decreases stream.events.len() - i,
    {
        proof {
            lemma_fold_step(evs, EventKind::FileStageFile, i as int);
            lemma_fold_step(evs, EventKind::FileStageRevision, i as int);
        }
        match &stream.events[i] {
            LoreEvent::FileStageFile(d) => {
                files.push(FileStageEntry { path: d.path.clone(), from_path: d.from_path.clone(), action: map_action(d.action) });
            },
            LoreEvent::FileStageRevision(d) => {
                revision = d.revision.clone();
            },
            _ => {},
        }
        i += 1;
    }
    proof {
        lemma_take_all(evs);
    }
    Ok(FileStageResult { files, revision, healed: false })
}

/// Staging reports every file with the action the engine took on it: a
/// kept file as kept, an added one as added, a deleted one as deleted, a
/// moved one as moved and a copied one as copied. `files` is what
/// `stage_from_events` returns for the events `evs`.
pub proof fn lemma_staged_action_is_engine_action(files: Seq<FileStageEntry>, evs: Seq<LoreEvent>)
    requires
        staged_entries_of(files, of_kind(evs, EventKind::FileStageFile)),
    ensures
        forall|j: int|
            0 <= j < files.len() ==> (of_kind(evs, EventKind::FileStageFile)[j] matches LoreEvent::FileStageFile(d) && {
                &&& (d.action is Keep <==> #[trigger] files[j].action is Keep)
                &&& (d.action is Add <==> files[j].action is Add)
                &&& (d.action is Delete <==> files[j].action is Delete)
                &&& (d.action is Move <==> files[j].action is Move)
                &&& (d.action is Copy <==> files[j].action is Copy)
            }),
{
    assert forall|j: int| 0 <= j < files.len() implies (of_kind(evs, EventKind::FileStageFile)[j] matches LoreEvent::FileStageFile(d) && {
        &&& (d.action is Keep <==> #[trigger] files[j].action is Keep)
        &&& (d.action is Add <==> files[j].action is Add)
        &&& (d.action is Delete <==> files[j].action is Delete)
        &&& (d.action is Move <==> files[j].action is Move)
        &&& (d.action is Copy <==> files[j].action is Copy)
    }) by {
        assert(staged_entry_of(files[j], of_kind(evs, EventKind::FileStageFile)[j]));
    }
}

/// True when an error message is the signature of a dangling staged anchor:
/// the shared store's wrapper around a failed read of the staged or revision
/// state, or the local store's bare `Not found`. Other "not found" messages
/// do not match.
pub open spec fn dangling_text(m: Seq<char>) -> bool {
    ||| spec_contains(m, "deserialize staged state"@)
    ||| spec_contains(m, "deserialize revision state"@)
    ||| m == "Not found"@
}

/// True when a failed stage failed on a dangling staged anchor: an engine or
/// client failure whose message has that signature.
pub open spec fn is_dangling(err: LoreError) -> bool {
    match err {
        LoreError::CommandFailed(m) => dangling_text(m@),
        LoreError::Client(m) => dangling_text(m@),
        _ => false,
    }
}

/// True when a failed stage failed on a dangling staged anchor.
pub fn is_dangling_staged_state(err: &LoreError) -> (r: bool)
    ensures
        r == is_dangling(*err),
{
    let m = match err {
        LoreError::CommandFailed(m) => m,
        LoreError::Client(m) => m,
        _ => return false,
    };
    let v = chars_of(m.as_str());
    contains(&v, "deserialize staged state") || contains(&v, "deserialize revision state") || is_text(&v, "Not found")
}

/// True when a failed stage failed on a dangling staged anchor; the
/// classifier itself, for callers that test it.
pub fn is_dangling_staged_state_for_test(err: &LoreError) -> (r: bool)
    ensures
        r == is_dangling(*err),
{
    is_dangling_staged_state(err)
}

/// `found` followed by each path of `requested` that is not already among
/// the paths before it, in order.
pub open spec fn path_union(found: Seq<Seq<char>>, requested: Seq<Seq<char>>) -> Seq<Seq<char>>
    decreases requested.len(),
{
    if requested.len() == 0 {
        found
    } else {
        let u = path_union(found, requested.drop_last());
        if u.contains(requested.last()) {
            u
        } else {
            u.push(requested.last())
        }
    }
}

/// True when `p` is among `ps`.
fn has_path(ps: &Vec<String>, p: &String) -> (r: bool)
    ensures
        r == string_views(ps@).contains(p@),
{
    let mut i: usize = 0;
    while i < ps.len()
        invariant
            i <= ps.len(),
            forall|j: int| 0 <= j < i ==> ps@[j]@ != p@,
        decreases ps.len() - i,
    {
        if ps[i] == *p {
            proof {
                assert(string_views(ps@)[i as int] == p@);
            }
            return true;
        }
        i += 1;
    }
    proof {
        if string_views(ps@).contains(p@) {
            let k = choose|k: int| 0 <= k < string_views(ps@).len() && string_views(ps@)[k] == p@;
            assert(ps@[k]@ == p@);
        }
    }
    false
}

/// The paths a recovery re-stages: the paths the scan found, then each
/// requested path not already among them.
pub fn restage_paths(found: Vec<String>, requested: &Vec<String>) -> (r: Vec<String>)
    ensures
        string_views(r@) == path_union(string_views(found@), string_views(requested@)),
{
    let ghost f = string_views(found@);
    let ghost q = string_views(requested@);
    let mut union = found;
    let mut i: usize = 0;
    while i < requested.len()
        invariant
            i <= requested.len(),
            q == string_views(requested@),
            string_views(union@) == path_union(f, q.take(i as int)),
        decreases requested.len() - i,
    {
        proof {
            assert(q.take(i + 1).drop_last() =~= q.take(i as int));
            assert(q.take(i + 1).last() == requested@[i as int]@);
        }
        if !has_path(&union, &requested[i]) {
            let p = requested[i].clone();
            proof {
                assert(string_views(union@.push(p)) =~= string_views(union@).push(p@));
            }
            union.push(p);
        }
        i += 1;
    }
    proof {
        assert(q.take(i as int) =~= q);
    }
    union
}

/// A recovery loses nothing: every path the scan found and every requested
/// path is re-staged, and nothing else is.
pub proof fn lemma_restage_keeps_every_path(found: Seq<Seq<char>>, requested: Seq<Seq<char>>)
    ensures
        forall|p: Seq<char>| found.contains(p) ==> path_union(found, requested).contains(p),
        forall|p: Seq<char>| requested.contains(p) ==> path_union(found, requested).contains(p),
        forall|p: Seq<char>| path_union(found, requested).contains(p) ==> found.contains(p) || requested.contains(p),
    decreases requested.len(),
{
    if requested.len() > 0 {
        let r0 = requested.drop_last();
        let x = requested.last();
        lemma_restage_keeps_every_path(found, r0);
        let u = path_union(found, r0);
        let w = path_union(found, requested);
        assert(w == if u.contains(x) { u } else { u.push(x) });
        assert(forall|p: Seq<char>| u.contains(p) ==> w.contains(p)) by {
            assert forall|p: Seq<char>| u.contains(p) implies w.contains(p) by {
                let k = choose|k: int| 0 <= k < u.len() && u[k] == p;
                if !u.contains(x) {
                    assert(w[k] == p);
                }
            }
        }
        assert(w.contains(x)) by {
            if !u.contains(x) {
                assert(w[u.len() as int] == x);
            }
        }
        assert forall|p: Seq<char>| requested.contains(p) implies w.contains(p) by {
            let k = choose|k: int| 0 <= k < requested.len() && requested[k] == p;
            if k < requested.len() - 1 {
                assert(r0[k] == p);
                assert(r0.contains(p));
            }
        }
        assert forall|p: Seq<char>| w.contains(p) implies found.contains(p) || requested.contains(p) by {
            if u.contains(p) {
                if r0.contains(p) {
                    let k = choose|k: int| 0 <= k < r0.len() && r0[k] == p;
                    assert(requested[k] == p);
                }
            } else {
                let k = choose|k: int| 0 <= k < w.len() && w[k] == p;
                assert(k == u.len());
                assert(requested[requested.len() - 1] == p);
            }
        }
    }
}

/// A recovery adds no duplicates: when the paths the scan found are
/// distinct, so are the paths re-staged.
pub proof fn lemma_restage_no_duplicates(found: Seq<Seq<char>>, requested: Seq<Seq<char>>)
    requires
        found.no_duplicates(),
    ensures
        path_union(found, requested).no_duplicates(),
    decreases requested.len(),
{
    if requested.len() > 0 {
        lemma_restage_no_duplicates(found, requested.drop_last());
    }
}

/// Where a stage with recovery stands.
#[derive(Debug, Clone, Copy, PartialEq, Eq, Structural)]
pub enum StagePhase {
    /// The first stage attempt is running.
    Staging,
    /// The dangling anchor is being dropped.
    Resetting,
    /// The working tree is being scanned for changed paths.
    Scanning,
    /// The recovered set is being staged again.
    Restaging,
    /// The stage is over.
    Finished,
}

/// What the driver of a stage does next.
#[derive(Debug)]
pub enum StageAction {
    /// Run one stage attempt with these arguments.
    Stage(FileStageArgs),
    /// Drop the staged anchor (a repository status with reset).
    ResetAnchor,
    /// Scan the working tree for changed paths (a repository status with scan).
    ScanDirty,
    /// The stage is over, with this outcome.
    Finish(Result<FileStageResult>),
}

/// What the driver of a stage reports back.
#[derive(Debug)]
pub enum StageEvent {
    /// A stage attempt ended.
    Staged(Result<FileStageResult>),
    /// Dropping the staged anchor ended.
    AnchorReset(Result<()>),
    /// The scan ended, with the changed paths it found.
    Scanned(Result<Vec<String>>),
}

/// A stage in progress: its phase, the arguments asked for, and the error
/// of the first attempt once recovery has begun.
#[derive(Debug)]
pub struct StageRun {
    pub phase: StagePhase,
    pub args: FileStageArgs,
    pub first_error: Option<LoreError>,
}

impl StageRun {
    /// True when `e` is the event the current phase waits for.
    pub open spec fn waits_for(&self, e: &StageEvent) -> bool {
        match self.phase {
            StagePhase::Staging => e is Staged,
            StagePhase::Resetting => e is AnchorReset,
            StagePhase::Scanning => e is Scanned,
            StagePhase::Restaging => e is Staged,
            StagePhase::Finished => false,
        }
    }

    /// True when `e` is the event the current phase waits for.
    pub fn expects(&self, e: &StageEvent) -> (r: bool)
        ensures
            r == self.waits_for(e),
    {
        match self.phase {
            StagePhase::Staging => matches!(e, StageEvent::Staged(_)),
            StagePhase::Resetting => matches!(e, StageEvent::AnchorReset(_)),
            StagePhase::Scanning => matches!(e, StageEvent::Scanned(_)),
            StagePhase::Restaging => matches!(e, StageEvent::Staged(_)),
            StagePhase::Finished => false,
        }
    }

    /// A stage of `args`: the first action is one attempt with them.
    pub fn start(args: FileStageArgs) -> (r: (StageRun, StageAction))
        ensures
            r.0.phase == StagePhase::Staging,
            r.0.args.paths@ == args.paths@ && r.0.args.case_change == args.case_change && r.0.args.scan == args.scan,
            r.0.first_error is None,
            r.1 matches StageAction::Stage(a) && a.paths@ == args.paths@ && a.case_change == args.case_change
                && a.scan == args.scan,
    {
        let attempt = args.clone();
        (StageRun { phase: StagePhase::Staging, args, first_error: None }, StageAction::Stage(attempt))
    }

    /// The next state and action after event `e`.
    ///
    /// A first attempt that succeeds, or fails for any reason but a dangling
    /// anchor, ends the stage with its outcome. A dangling anchor starts a
    /// recovery: drop the anchor, then scan the working tree, then stage the
    /// paths found together with the paths asked for, scanning directories.
    /// A scan that fails counts as one that found nothing. When the recovery
    /// itself fails (dropping the anchor or the recovered attempt), the stage
    /// ends with the first attempt's error; a recovered attempt that succeeds
    /// ends it with its result, marked as healed.
    pub fn step(self, e: StageEvent) -> (r: (StageRun, StageAction))
        requires
            self.waits_for(&e),
        ensures
            r.0.args.paths@ == self.args.paths@ && r.0.args.case_change == self.args.case_change
                && r.0.args.scan == self.args.scan,
            (match (self.phase, e) {
                (StagePhase::Staging, StageEvent::Staged(Ok(res))) => r.0.phase == StagePhase::Finished
                    && r.1 == StageAction::Finish(Ok(res)),
                (StagePhase::Staging, StageEvent::Staged(Err(err))) => if is_dangling(err) {
                    r.0.phase == StagePhase::Resetting && r.0.first_error == Some(err)
                        && r.1 is ResetAnchor
                } else {
                    r.0.phase == StagePhase::Finished && r.1 == StageAction::Finish(Err(err))
                },
                (StagePhase::Resetting, StageEvent::AnchorReset(Ok(_))) => r.0.phase == StagePhase::Scanning
                    && r.0.first_error == self.first_error && r.1 is ScanDirty,
                (StagePhase::Resetting, StageEvent::AnchorReset(Err(reset_err))) => r.0.phase == StagePhase::Finished
                    && r.1 == StageAction::Finish(Err(match self.first_error {
                        Some(first) => first,
                        None => reset_err,
                    })),
                (StagePhase::Scanning, StageEvent::Scanned(found)) => r.0.phase == StagePhase::Restaging
                    && r.0.first_error == self.first_error
                    && (r.1 matches StageAction::Stage(a) && string_views(a.paths@) == path_union(
                        match found {
                            Ok(ps) => string_views(ps@),
                            Err(_) => Seq::empty(),
                        },
                        string_views(self.args.paths@),
                    ) && a.case_change == self.args.case_change && a.scan),
                (StagePhase::Restaging, StageEvent::Staged(Ok(res))) => r.0.phase == StagePhase::Finished
                    && (r.1 matches StageAction::Finish(Ok(out)) && out.files == res.files
                        && out.revision == res.revision && out.healed),
                (StagePhase::Restaging, StageEvent::Staged(Err(err))) => r.0.phase == StagePhase::Finished
                    && r.1 == StageAction::Finish(Err(match self.first_error {
                        Some(first) => first,
                        None => err,
                    })),
                _ => false,
            }),
    {
        let StageRun { phase, args, first_error } = self;
        match (phase, e) {
            (StagePhase::Staging, StageEvent::Staged(Ok(res))) => {
                (StageRun { phase: StagePhase::Finished, args, first_error }, StageAction::Finish(Ok(res)))
            },
            (StagePhase::Staging, StageEvent::Staged(Err(err))) => {
                if is_dangling_staged_state(&err) {
                    (StageRun { phase: StagePhase::Resetting, args, first_error: Some(err) }, StageAction::ResetAnchor)
                } else {
                    (StageRun { phase: StagePhase::Finished, args, first_error }, StageAction::Finish(Err(err)))
                }
            },
            (StagePhase::Resetting, StageEvent::AnchorReset(Ok(_))) => {
                (StageRun { phase: StagePhase::Scanning, args, first_error }, StageAction::ScanDirty)
            },
            (StagePhase::Resetting, StageEvent::AnchorReset(Err(reset_err))) => {
                let outcome = match first_error {
                    Some(first) => Err(first),
                    None => Err(reset_err),
                };
                (StageRun { phase: StagePhase::Finished, args, first_error: None }, StageAction::Finish(outcome))
            },
            (StagePhase::Scanning, StageEvent::Scanned(found)) => {
                let found_paths = match found {
                    Ok(ps) => ps,
                    Err(_) => Vec::new(),
                };
                proof {
                    assert(string_views(found_paths@) =~= match found {
                        Ok(ps) => string_views(ps@),
                        Err(_) => Seq::<Seq<char>>::empty(),
                    });
                }
                let paths = restage_paths(found_paths, &args.paths);
                let again = FileStageArgs { paths, case_change: args.case_change, scan: true };
                (StageRun { phase: StagePhase::Restaging, args, first_error }, StageAction::Stage(again))
            },
            (StagePhase::Restaging, StageEvent::Staged(Ok(res))) => {
                let FileStageResult { files, revision, healed: _ } = res;
                let out = FileStageResult { files, revision, healed: true };
                (StageRun { phase: StagePhase::Finished, args, first_error }, StageAction::Finish(Ok(out)))
            },
            (StagePhase::Restaging, StageEvent::Staged(Err(err))) => {
                let outcome = match first_error {
                    Some(first) => Err(first),
                    None => Err(err),
                };
                (StageRun { phase: StagePhase::Finished, args, first_error: None }, StageAction::Finish(outcome))
            },
            _ => {
                (StageRun { phase: StagePhase::Finished, args, first_error }, StageAction::ResetAnchor)
            },
        }
    }
}

} // verus!
