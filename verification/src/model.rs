//! View-model types: UI- and transport-agnostic shapes of a working tree.
use vstd::prelude::*;

verus! {

/// How a file differs from the committed revision.
#[derive(Debug, Clone, Copy, PartialEq, Eq, Structural)]
pub enum ChangeKind {
    Added,
    Modified,
    Deleted,
    Renamed,
    Untracked,
}

/// A single changed path in the working tree.
#[derive(Debug)]
pub struct FileChange {
    pub path: String,
    pub kind: ChangeKind,
    /// True once `stage` has included this path in the next revision.
    pub staged: bool,
}

/// The abstract value of a [`FileChange`].
#[verifier::ext_equal]
pub struct FileChangeView {
    pub path: Seq<char>,
    pub kind: ChangeKind,
    pub staged: bool,
}

impl View for FileChange {
    type V = FileChangeView;

    open spec fn view(&self) -> FileChangeView {
        FileChangeView { path: self.path@, kind: self.kind, staged: self.staged }
    }
}

impl Clone for FileChange {
    fn clone(&self) -> (r: Self)
        ensures
            r@ == self@,
    {
        FileChange { path: self.path.clone(), kind: self.kind, staged: self.staged }
    }
}

/// The views of a sequence of file changes.
pub open spec fn change_views(v: Seq<FileChange>) -> Seq<FileChangeView> {
    v.map_values(|c: FileChange| c@)
}

/// The changes of `cs` whose `staged` flag equals `staged`, in order.
pub open spec fn changes_with(cs: Seq<FileChangeView>, staged: bool) -> Seq<FileChangeView>
    decreases cs.len(),
{
    if cs.len() == 0 {
        seq![]
    } else if cs.last().staged == staged {
        changes_with(cs.drop_last(), staged).push(cs.last())
    } else {
        changes_with(cs.drop_last(), staged)
    }
}

/// Snapshot of the working tree — what the main panel renders.
#[derive(Debug)]
pub struct RepoStatus {
    pub repo_id: String,
    pub branch: String,
    /// Short form of the current revision hash.
    pub revision: String,
    pub changes: Vec<FileChange>,
    /// Revisions committed locally but not yet pushed.
    pub ahead: u32,
    /// Revisions on the remote not yet synced locally.
    pub behind: u32,
}

/// The abstract value of a [`RepoStatus`].
#[verifier::ext_equal]
pub struct RepoStatusView {
    pub repo_id: Seq<char>,
    pub branch: Seq<char>,
    pub revision: Seq<char>,
    pub changes: Seq<FileChangeView>,
    pub ahead: u32,
    pub behind: u32,
}

impl View for RepoStatus {
    type V = RepoStatusView;

    open spec fn view(&self) -> RepoStatusView {
        RepoStatusView {
            repo_id: self.repo_id@,
            branch: self.branch@,
            revision: self.revision@,
            changes: change_views(self.changes@),
            ahead: self.ahead,
            behind: self.behind,
        }
    }
}

/// The empty status: no repository, branch, revision or changes.
pub open spec fn empty_status() -> RepoStatusView {
    RepoStatusView {
        repo_id: seq![],
        branch: seq![],
        revision: seq![],
        changes: seq![],
        ahead: 0,
        behind: 0,
    }
}

impl Default for RepoStatus {
    fn default() -> (r: Self)
        ensures
            r@ == empty_status(),
    {
        let r = RepoStatus {
            repo_id: String::new(),
            branch: String::new(),
            revision: String::new(),
            changes: Vec::new(),
            ahead: 0,
            behind: 0,
        };
        assert(r@.changes =~= Seq::<FileChangeView>::empty());
        r
    }
}

/// Copies of the changes whose `staged` flag equals `staged`.
fn select_changes(changes: &Vec<FileChange>, staged: bool) -> (r: Vec<FileChange>)
    ensures
        change_views(r@) == changes_with(change_views(changes@), staged),
{
    let mut r: Vec<FileChange> = Vec::new();
    let mut i: usize = 0;
    while i < changes.len()
        invariant
            i <= changes.len(),
            change_views(r@) == changes_with(change_views(changes@.subrange(0, i as int)), staged),
        decreases changes.len() - i,
    {
        let ghost before = r@;
        if changes[i].staged == staged {
            r.push(changes[i].clone());
            assert(change_views(r@) =~= change_views(before).push(changes@[i as int]@));
        }
        assert(change_views(changes@.subrange(0, i + 1)).drop_last() =~= change_views(
            changes@.subrange(0, i as int),
        ));
        i += 1;
    }
    assert(changes@.subrange(0, changes.len() as int) =~= changes@);
    r
}

impl RepoStatus {
    /// The staged changes, in order.
    pub fn staged(&self) -> (r: Vec<FileChange>)
        ensures
            change_views(r@) == changes_with(self@.changes, true),
    {
        select_changes(&self.changes, true)
    }

    /// The unstaged changes, in order.
    pub fn unstaged(&self) -> (r: Vec<FileChange>)
        ensures
            change_views(r@) == changes_with(self@.changes, false),
    {
        select_changes(&self.changes, false)
    }
}

/// Every change is either staged or unstaged: together the two selections
/// hold exactly the changes of the status, each once.
pub proof fn lemma_staged_unstaged_partition(cs: Seq<FileChangeView>)
    ensures
        changes_with(cs, true).len() + changes_with(cs, false).len() == cs.len(),
        changes_with(cs, true).to_multiset().add(changes_with(cs, false).to_multiset())
            == cs.to_multiset(),
        forall|i: int| 0 <= i < changes_with(cs, true).len() ==> (#[trigger] changes_with(cs, true)[i]).staged,
        forall|i: int| 0 <= i < changes_with(cs, false).len() ==> !(#[trigger] changes_with(cs, false)[i]).staged,
    decreases cs.len(),
{
    broadcast use vstd::seq_lib::group_to_multiset_ensures;
    if cs.len() > 0 {
        lemma_staged_unstaged_partition(cs.drop_last());
        assert(cs =~= cs.drop_last().push(cs.last()));
        let t = changes_with(cs.drop_last(), true);
        let f = changes_with(cs.drop_last(), false);
        if cs.last().staged {
            assert(changes_with(cs, true) == t.push(cs.last()));
            assert(changes_with(cs, true).to_multiset() =~= t.to_multiset().insert(cs.last()));
            assert forall|i: int| 0 <= i < changes_with(cs, true).len() implies (#[trigger] changes_with(cs, true)[i]).staged by {
                if i < t.len() {
                    assert(changes_with(cs, true)[i] == t[i]);
                }
            }
        } else {
            assert(changes_with(cs, false) == f.push(cs.last()));
            assert forall|i: int| 0 <= i < changes_with(cs, false).len() implies !(#[trigger] changes_with(cs, false)[i]).staged by {
                if i < f.len() {
                    assert(changes_with(cs, false)[i] == f[i]);
                }
            }
        }
        assert(cs.to_multiset() =~= cs.drop_last().to_multiset().insert(cs.last()));
        assert(changes_with(cs, true).to_multiset().add(changes_with(cs, false).to_multiset())
            =~= cs.to_multiset());
    } else {
        assert(cs.to_multiset() =~= vstd::multiset::Multiset::empty());
        assert(changes_with(cs, true).to_multiset() =~= vstd::multiset::Multiset::empty());
        assert(changes_with(cs, false).to_multiset() =~= vstd::multiset::Multiset::empty());
    }
}

/// A branch pointer.
#[derive(Debug)]
pub struct Branch {
    pub name: String,
    pub id: String,
    pub latest_revision: String,
    pub is_current: bool,
}

/// The abstract value of a [`Branch`].
#[verifier::ext_equal]
pub struct BranchView {
    pub name: Seq<char>,
    pub id: Seq<char>,
    pub latest_revision: Seq<char>,
    pub is_current: bool,
}

impl View for Branch {
    type V = BranchView;

    open spec fn view(&self) -> BranchView {
        BranchView {
            name: self.name@,
            id: self.id@,
            latest_revision: self.latest_revision@,
            is_current: self.is_current,
        }
    }
}

/// The views of a sequence of branches.
pub open spec fn branch_views(v: Seq<Branch>) -> Seq<BranchView> {
    v.map_values(|b: Branch| b@)
}

/// One entry in the immutable revision chain.
#[derive(Debug)]
pub struct Revision {
    /// Hash signature of the revision.
    pub hash: String,
    pub message: String,
    pub author: String,
    /// RFC3339 timestamp.
    pub timestamp: String,
    pub parent: Option<String>,
}

/// The abstract value of a [`Revision`].
#[verifier::ext_equal]
pub struct RevisionView {
    pub hash: Seq<char>,
    pub message: Seq<char>,
    pub author: Seq<char>,
    pub timestamp: Seq<char>,
    pub parent: Option<Seq<char>>,
}

/// The view of an optional string.
pub open spec fn opt_view(o: Option<String>) -> Option<Seq<char>> {
    match o {
        Some(s) => Some(s@),
        None => None,
    }
}

impl View for Revision {
    type V = RevisionView;

    open spec fn view(&self) -> RevisionView {
        RevisionView {
            hash: self.hash@,
            message: self.message@,
            author: self.author@,
            timestamp: self.timestamp@,
            parent: opt_view(self.parent),
        }
    }
}

/// The views of a sequence of revisions.
pub open spec fn revision_views(v: Seq<Revision>) -> Seq<RevisionView> {
    v.map_values(|r: Revision| r@)
}

} // verus!
