//! `branch diff`: the changes between two branches, and their conflicts.
use vstd::prelude::*;
use crate::error::Result;
use crate::events::{
    check_stream, is_stream_failure, lemma_fold_step, lemma_take_all, of_kind, DiffChangeData, EventKind,
    EventStream, FileAction, LoreEvent,
};
use crate::global::{flag, flag_of};
use crate::paths::{resolved, resolve_path};

verus! {

/// Arguments of `branch diff`.
#[derive(Debug, Clone)]
pub struct BranchDiffArgs {
    pub source: String,
    pub target: String,
    /// Restrict the diff to this path, relative to the repository root or
    /// absolute.
    pub path: String,
    /// Resolve conflicts that merge cleanly.
    pub auto_resolve: bool,
}

/// The engine's arguments of `branch diff`.
#[derive(Debug)]
pub struct LoreBranchDiffArgs {
    pub source: String,
    pub target: String,
    pub path: String,
    pub auto_resolve: u8,
}

impl BranchDiffArgs {
    /// The engine's arguments, with the path resolved against `repo_root`.
    pub fn into_lore(self, repo_root: &str) -> (r: LoreBranchDiffArgs)
        ensures
            r.source == self.source,
            r.target == self.target,
            r.path@ == resolved(repo_root@, self.path@),
            r.auto_resolve == flag(self.auto_resolve),
    {
        LoreBranchDiffArgs {
            path: resolve_path(repo_root, self.path.as_str()),
            source: self.source,
            target: self.target,
            auto_resolve: flag_of(self.auto_resolve),
        }
    }
}

/// What a change did to a file.
#[derive(Debug, Clone, Copy, PartialEq, Eq, Structural)]
pub enum BranchDiffAction {
    Keep,
    Add,
    Delete,
    Move,
    Copy,
}

/// One changed file.
#[derive(Debug, Clone)]
pub struct BranchDiffChange {
    pub path: String,
    pub action: BranchDiffAction,
    pub automerged: bool,
}

/// A file both branches changed.
#[derive(Debug, Clone)]
pub struct BranchDiffConflict {
    pub source_change: BranchDiffChange,
    pub target_change: BranchDiffChange,
}

/// The changes and conflicts between two branches.
#[derive(Debug, Clone)]
pub struct BranchDiffResult {
    pub changes: Vec<BranchDiffChange>,
    pub conflicts: Vec<BranchDiffConflict>,
}

/// The diff action of an engine file action.
pub open spec fn diff_action(a: FileAction) -> BranchDiffAction {
    match a {
        FileAction::Keep => BranchDiffAction::Keep,
        FileAction::Add => BranchDiffAction::Add,
        FileAction::Delete => BranchDiffAction::Delete,
        FileAction::Move => BranchDiffAction::Move,
        FileAction::Copy => BranchDiffAction::Copy,
    }
}

/// The diff action of an engine file action.
pub fn map_action(a: FileAction) -> (r: BranchDiffAction)
    ensures
        r == diff_action(a),
{
    match a {
        FileAction::Keep => BranchDiffAction::Keep,
        FileAction::Add => BranchDiffAction::Add,
        FileAction::Delete => BranchDiffAction::Delete,
        FileAction::Move => BranchDiffAction::Move,
        FileAction::Copy => BranchDiffAction::Copy,
    }
}

/// True when `c` is the change `d` describes.
pub open spec fn change_of(c: BranchDiffChange, d: DiffChangeData) -> bool {
    c.path == d.path && c.action == diff_action(d.action) && c.automerged == (d.automerged != 0)
}

/// True when `c` is the change that event `e` reports.
pub open spec fn change_event(c: BranchDiffChange, e: LoreEvent) -> bool {
    e matches LoreEvent::BranchDiffChange(d) && change_of(c, d)
}

/// True when `c` is the conflict that event `e` reports.
pub open spec fn conflict_event(c: BranchDiffConflict, e: LoreEvent) -> bool {
    e matches LoreEvent::BranchDiffConflict(d) && change_of(c.source_change, d.source_change)
        && change_of(c.target_change, d.target_change)
}

/// True when `cs` are the changes that the change events `evs` report, in order.
pub open spec fn changes_of(cs: Seq<BranchDiffChange>, evs: Seq<LoreEvent>) -> bool {
    cs.len() == evs.len() && forall|j: int| 0 <= j < evs.len() ==> change_event(#[trigger] cs[j], evs[j])
}

/// True when `cs` are the conflicts that the conflict events `evs` report, in order.
pub open spec fn conflicts_of(cs: Seq<BranchDiffConflict>, evs: Seq<LoreEvent>) -> bool {
    cs.len() == evs.len() && forall|j: int| 0 <= j < evs.len() ==> conflict_event(#[trigger] cs[j], evs[j])
}

/// Every change of a branch diff, and each side of every conflict, carries
/// the action the engine reported for it: an added file as added, a deleted
/// one as deleted, and likewise for keep, move and copy. `c` is a change
/// `diff_from_events` returns for the engine's change `d`.
pub proof fn lemma_branch_diff_action_is_engine_action(c: BranchDiffChange, d: DiffChangeData)
    requires
        change_of(c, d),
    ensures
        (d.action is Keep <==> c.action is Keep),
        (d.action is Add <==> c.action is Add),
        (d.action is Delete <==> c.action is Delete),
        (d.action is Move <==> c.action is Move),
        (d.action is Copy <==> c.action is Copy),
{
}

/// The change `d` describes.
fn change_from(d: &DiffChangeData) -> (r: BranchDiffChange)
    ensures
        change_of(r, *d),
{
    BranchDiffChange { path: d.path.clone(), action: map_action(d.action), automerged: d.automerged != 0 }
}

/// The result of `branch diff`, read off its event stream: one change per
/// `BranchDiffChange` event and one conflict per `BranchDiffConflict` event.
pub fn diff_from_events(stream: &EventStream, status: &str) -> (r: Result<BranchDiffResult>)
    ensures
        !stream.ok ==> is_stream_failure(r, *stream, "branch diff"@, status@),
        stream.ok ==> (r matches Ok(res) && changes_of(res.changes@, of_kind(stream.events@, EventKind::BranchDiffChange))
            && conflicts_of(res.conflicts@, of_kind(stream.events@, EventKind::BranchDiffConflict))),
{
    if let Err(e) = check_stream(stream, "branch diff", status) {
        return Err(e);
    }
    let ghost evs = stream.events@;
    let mut changes: Vec<BranchDiffChange> = Vec::new();
    let mut conflicts: Vec<BranchDiffConflict> = Vec::new();
    let mut i: usize = 0;
    while i < stream.events.len()
        invariant
            i <= stream.events.len(),
            evs == stream.events@,
            changes_of(changes@, of_kind(evs.take(i as int), EventKind::BranchDiffChange)),
            conflicts_of(conflicts@, of_kind(evs.take(i as int), EventKind::BranchDiffConflict)),
        decreases stream.events.len() - i,
    {
        proof {
            lemma_fold_step(evs, EventKind::BranchDiffChange, i as int);
            lemma_fold_step(evs, EventKind::BranchDiffConflict, i as int);
        }
        match &stream.events[i] {
            LoreEvent::BranchDiffChange(d) => {
                changes.push(change_from(d));
            },
            LoreEvent::BranchDiffConflict(d) => {
                conflicts.push(BranchDiffConflict {
                    source_change: change_from(&d.source_change),
                    target_change: change_from(&d.target_change),
                });
            },
            _ => {},
        }
        i += 1;
    }
    proof {
        lemma_take_all(evs);
    }
    Ok(BranchDiffResult { changes, conflicts })
}

} // verus!
