//! The in-process backend: the backend verbs answered by the operations
//! layer, their results mapped to the view-model types.
//!
//! The shapes of the repository-status, revision-history and branch-list
//! results it reads are the ones those operations report.
use vstd::prelude::*;
use crate::api::LoreApi;
use crate::model::{Branch, BranchView, ChangeKind, FileChange, FileChangeView, RepoStatus, Revision, RevisionView};
use crate::ops::branch::create::BranchCreateArgs;
use crate::ops::branch::push::BranchPushArgs;
use crate::ops::branch::switch::BranchSwitchArgs;
use crate::ops::file::stage::{CaseChange, FileStageArgs};
use crate::ops::file::unstage::FileUnstageArgs;
use crate::events::copy_strings;

verus! {

/// The backend that runs the operations in process, against one working
/// directory.
#[derive(Debug)]
pub struct ClientBackend {
    working_dir: String,
}

impl ClientBackend {
    /// The directory this backend works in.
    pub closed spec fn dir(&self) -> String {
        self.working_dir
    }

    /// A backend for the working tree at `working_dir`.
    pub fn new(working_dir: String) -> (r: Self)
        ensures
            r.dir() == working_dir,
    {
        ClientBackend { working_dir }
    }

    /// A handle for this backend's working directory, with default settings.
    pub fn api(&self) -> (r: LoreApi)
        ensures
            r.spec_globals().repository_path == self.dir(),
            r.spec_globals().identity@ == Seq::<char>::empty(),
            !r.spec_globals().offline,
            !r.spec_globals().force,
            r.spec_globals().max_connections == 8,
            !r.spec_globals().in_memory,
    {
        LoreApi::new(self.working_dir.clone())
    }
}

/// What the repository status says a file's change was.
#[derive(Debug, Clone, Copy, PartialEq, Eq, Structural)]
pub enum StatusFileAction {
    Keep,
    Add,
    Delete,
    Move,
    Copy,
}

/// A file the repository status reports.
#[derive(Debug, Clone)]
pub struct StatusFileEntry {
    pub path: String,
    pub action: StatusFileAction,
    pub staged: bool,
}

/// Where the repository status says the working tree is.
#[derive(Debug, Clone)]
pub struct StatusRevision {
    pub repository: String,
    /// The branch id.
    pub branch: String,
    /// The branch's name; empty when it has none.
    pub branch_name: String,
    pub revision: String,
}

/// One revision of the revision history.
#[derive(Debug, Clone)]
pub struct RevisionHistoryEntry {
    pub revision: String,
    pub parents: Vec<String>,
}

/// One branch of the branch list.
#[derive(Debug, Clone)]
pub struct BranchListEntry {
    pub name: String,
    pub id: String,
    pub latest: String,
    pub is_current: bool,
}

/// The view-model change kind of a status action: an added, deleted or
/// moved/copied file is added, deleted or renamed; a kept file was changed
/// in place.
pub open spec fn change_kind(a: StatusFileAction) -> ChangeKind {
    match a {
        StatusFileAction::Add => ChangeKind::Added,
        StatusFileAction::Delete => ChangeKind::Deleted,
        StatusFileAction::Move => ChangeKind::Renamed,
        StatusFileAction::Copy => ChangeKind::Renamed,
        StatusFileAction::Keep => ChangeKind::Modified,
    }
}

/// How the in-process backend shows an engine status action: an added file
/// as added, a deleted one as deleted, a moved or copied one as renamed, and
/// a kept one as modified in place; no status action shows as untracked.
pub proof fn lemma_change_kind_of_status_action(a: StatusFileAction)
    ensures
        a is Add <==> change_kind(a) is Added,
        a is Delete <==> change_kind(a) is Deleted,
        (a is Move || a is Copy) <==> change_kind(a) is Renamed,
        a is Keep <==> change_kind(a) is Modified,
        !(change_kind(a) is Untracked),
{
}

/// The view-model change kind of a status action.
pub fn map_change_kind(a: StatusFileAction) -> (r: ChangeKind)
    ensures
        r == change_kind(a),
{
    match a {
        StatusFileAction::Add => ChangeKind::Added,
        StatusFileAction::Delete => ChangeKind::Deleted,
        StatusFileAction::Move | StatusFileAction::Copy => ChangeKind::Renamed,
        StatusFileAction::Keep => ChangeKind::Modified,
    }
}

/// The change a status file shows as.
pub open spec fn change_of(f: StatusFileEntry) -> FileChangeView {
    FileChangeView { path: f.path@, kind: change_kind(f.action), staged: f.staged }
}

/// The branch a status revision shows: its name, or its id when it has no name.
pub open spec fn shown_branch(rev: StatusRevision) -> Seq<char> {
    if rev.branch_name@.len() == 0 {
        rev.branch@
    } else {
        rev.branch_name@
    }
}

/// The working-tree snapshot a repository status shows as: one change per
/// file, the repository, branch and revision it reports (all empty when it
/// reports none), and no ahead or behind counts, which a status does not
/// report.
pub fn status_view(files: &Vec<StatusFileEntry>, revision: Option<StatusRevision>) -> (r: RepoStatus)
    ensures
        r@.changes.len() == files.len(),
        forall|i: int| 0 <= i < files.len() ==> #[trigger] r@.changes[i] == change_of(files[i]),
        match revision {
            Some(rev) => r@.repo_id == rev.repository@ && r@.branch == shown_branch(rev)
                && r@.revision == rev.revision@,
            None => r@.repo_id.len() == 0 && r@.branch.len() == 0 && r@.revision.len() == 0,
        },
        r@.ahead == 0,
        r@.behind == 0,
{
    let mut changes: Vec<FileChange> = Vec::new();
    let mut i: usize = 0;
    while i < files.len()
        invariant
            i <= files.len(),
            changes.len() == i,
            forall|j: int| 0 <= j < i ==> #[trigger] changes[j]@ == change_of(files[j]),
        decreases files.len() - i,
    {
        let f = &files[i];
        changes.push(FileChange { kind: map_change_kind(f.action), path: f.path.clone(), staged: f.staged });
        i += 1;
    }
    let (repo_id, branch, rev) = match revision {
        Some(rev) => {
            let branch = if rev.branch_name.as_str().is_empty() {
                rev.branch
            } else {
                rev.branch_name
            };
            (rev.repository, branch, rev.revision)
        },
        None => (String::new(), String::new(), String::new()),
    };
    let r = RepoStatus { repo_id, branch, revision: rev, changes, ahead: 0, behind: 0 };
    proof {
        assert forall|j: int| 0 <= j < files.len() implies #[trigger] r@.changes[j] == change_of(files[j]) by {
            assert(r@.changes[j] == r.changes@[j]@);
        }
    }
    r
}

/// The number of revisions a log of `limit` asks the history for (`limit`
/// modulo 2^32).
pub fn log_length(limit: usize) -> (r: u32)
    ensures
        r == limit as u32,
{
    #[verifier::truncate]
    let r = limit as u32;
    r
}

/// The revision a history entry shows as: its hash and first parent, with
/// no message, author or time, which a history does not report.
pub open spec fn revision_of(e: RevisionHistoryEntry) -> RevisionView {
    RevisionView {
        hash: e.revision@,
        message: Seq::empty(),
        author: Seq::empty(),
        timestamp: Seq::empty(),
        parent: if e.parents@.len() > 0 {
            Some(e.parents@[0]@)
        } else {
            None
        },
    }
}

/// The log a revision history shows as: one revision per entry, in order.
pub fn log_view(entries: &Vec<RevisionHistoryEntry>) -> (r: Vec<Revision>)
    ensures
        r.len() == entries.len(),
        forall|i: int| 0 <= i < entries.len() ==> #[trigger] r[i]@ == revision_of(entries[i]),
{
    let mut r: Vec<Revision> = Vec::new();
    let mut i: usize = 0;
    while i < entries.len()
        invariant
            i <= entries.len(),
            r.len() == i,
            forall|j: int| 0 <= j < i ==> #[trigger] r[j]@ == revision_of(entries[j]),
        decreases entries.len() - i,
    {
        let e = &entries[i];
        let parent = if e.parents.len() > 0 {
            Some(e.parents[0].clone())
        } else {
            None
        };
        r.push(Revision {
            hash: e.revision.clone(),
            message: String::new(),
            author: String::new(),
            timestamp: String::new(),
            parent,
        });
        i += 1;
    }
    r
}

/// The branch a branch-list entry shows as.
pub open spec fn branch_of(e: BranchListEntry) -> BranchView {
    BranchView { name: e.name@, id: e.id@, latest_revision: e.latest@, is_current: e.is_current }
}

/// The branches a branch list shows as: one per entry, in order.
pub fn branches_view(entries: &Vec<BranchListEntry>) -> (r: Vec<Branch>)
    ensures
        r.len() == entries.len(),
        forall|i: int| 0 <= i < entries.len() ==> #[trigger] r[i]@ == branch_of(entries[i]),
{
    let mut r: Vec<Branch> = Vec::new();
    let mut i: usize = 0;
    while i < entries.len()
        invariant
            i <= entries.len(),
            r.len() == i,
            forall|j: int| 0 <= j < i ==> #[trigger] r[j]@ == branch_of(entries[j]),
        decreases entries.len() - i,
    {
        let e = &entries[i];
        r.push(Branch {
            name: e.name.clone(),
            id: e.id.clone(),
            latest_revision: e.latest.clone(),
            is_current: e.is_current,
        });
        i += 1;
    }
    r
}

/// The arguments the backend stages `paths` with: case changes refused,
/// directories scanned.
pub fn stage_request(paths: &Vec<String>) -> (r: FileStageArgs)
    ensures
        r.paths@ == paths@,
        r.case_change == CaseChange::Error,
        r.scan,
{
    FileStageArgs { paths: copy_strings(paths), case_change: CaseChange::default(), scan: true }
}

/// The arguments the backend unstages `paths` with.
pub fn unstage_request(paths: &Vec<String>) -> (r: FileUnstageArgs)
    ensures
        r.paths@ == paths@,
{
    FileUnstageArgs { paths: copy_strings(paths) }
}

/// The arguments the backend creates branch `name` with: no category, and
/// an id the engine chooses.
pub fn create_branch_request(name: &str) -> (r: BranchCreateArgs)
    ensures
        r.branch@ == name@,
        r.category@.len() == 0,
        r.id@.len() == 0,
{
    BranchCreateArgs { branch: String::from_str(name), category: String::new(), id: String::new() }
}

/// The arguments the backend switches to branch `name` with: its latest
/// revision, keeping local changes and updating the working files.
pub fn switch_branch_request(name: &str) -> (r: BranchSwitchArgs)
    ensures
        r.branch@ == name@,
        r.revision@.len() == 0,
        !r.reset,
        !r.bare,
{
    BranchSwitchArgs { branch: String::from_str(name), revision: String::new(), reset: false, bare: false }
}

/// The arguments the backend pushes with: the current branch, without
/// fast-forwarding the remote.
pub fn push_request() -> (r: BranchPushArgs)
    ensures
        r.branch@.len() == 0,
        !r.fast_forward_merge,
{
    BranchPushArgs { branch: String::new(), fast_forward_merge: false }
}

} // verus!
