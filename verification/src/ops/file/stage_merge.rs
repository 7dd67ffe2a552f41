//! `file stage_merge`: stages the result of a merge.
use vstd::prelude::*;
use crate::error::Result;
use crate::events::{
    check_stream, is_stream_failure, last_revision, lemma_fold_step, lemma_take_all, of_kind, EventKind,
    EventStream, LoreEvent,
};
use crate::paths::{resolved, resolve_paths};

verus! {

/// Arguments of `file stage_merge`.
#[derive(Debug, Clone)]
pub struct FileStageMergeArgs {
    /// The merged files staged, relative to the repository root or absolute.
    pub paths: Vec<String>,
}

/// The engine's arguments of `file stage_merge`.
#[derive(Debug)]
pub struct LoreFileStageMergeArgs {
    pub paths: Vec<String>,
}

impl FileStageMergeArgs {
    /// The engine's arguments, with every path resolved against `repo_root`.
    pub fn into_lore(self, repo_root: &str) -> (r: LoreFileStageMergeArgs)
        ensures
            r.paths.len() == self.paths.len(),
            forall|i: int| 0 <= i < self.paths.len() ==> #[trigger] r.paths[i]@ == resolved(repo_root@, self.paths[i]@),
    {
        LoreFileStageMergeArgs { paths: resolve_paths(repo_root, &self.paths) }
    }
}

/// What staging did to a file.
#[derive(Debug, Clone, Copy, PartialEq, Eq, Structural)]
pub enum FileStageMergeAction {
    Keep,
    Add,
    Delete,
    Move,
    Copy,
}

/// The staging action of an engine file action.
pub open spec fn stage_action(a: crate::events::FileAction) -> FileStageMergeAction {
    match a {
        crate::events::FileAction::Keep => FileStageMergeAction::Keep,
        crate::events::FileAction::Add => FileStageMergeAction::Add,
        crate::events::FileAction::Delete => FileStageMergeAction::Delete,
        crate::events::FileAction::Move => FileStageMergeAction::Move,
        crate::events::FileAction::Copy => FileStageMergeAction::Copy,
    }
}

/// The staging action of an engine file action.
pub fn map_action(a: crate::events::FileAction) -> (r: FileStageMergeAction)
    ensures
        r == stage_action(a),
{
    match a {
        crate::events::FileAction::Keep => FileStageMergeAction::Keep,
        crate::events::FileAction::Add => FileStageMergeAction::Add,
        crate::events::FileAction::Delete => FileStageMergeAction::Delete,
        crate::events::FileAction::Move => FileStageMergeAction::Move,
        crate::events::FileAction::Copy => FileStageMergeAction::Copy,
    }
}

/// One file staged.
#[derive(Debug, Clone)]
pub struct FileStageMergeEntry {
    pub path: String,
    /// The previous path of a moved file; empty otherwise.
    pub from_path: String,
    pub action: FileStageMergeAction,
}

/// The files staged and the staged revision.
#[derive(Debug, Clone)]
pub struct FileStageMergeResult {
    pub files: Vec<FileStageMergeEntry>,
    /// The staged revision; empty when none was reported.
    pub revision: String,
}

/// True when `x` is the file that event `e` reports.
pub open spec fn staged_entry_of(x: FileStageMergeEntry, e: LoreEvent) -> bool {
    e matches LoreEvent::FileStageFile(d) && x.path == d.path && x.from_path == d.from_path
        && x.action == stage_action(d.action)
}

/// True when `xs` are the files that `evs` report, in order.
pub open spec fn staged_entries_of(xs: Seq<FileStageMergeEntry>, evs: Seq<LoreEvent>) -> bool {
    xs.len() == evs.len() && forall|j: int| 0 <= j < evs.len() ==> staged_entry_of(#[trigger] xs[j], evs[j])
}

/// Every file `file stage_merge` reports carries the action the engine took on
/// it: kept as kept, added as added, deleted as deleted, moved as moved and
/// copied as copied. `xs` is what `stage_merge_from_events` returns for the events `evs`.
pub proof fn lemma_stage_merge_action_is_engine_action(xs: Seq<FileStageMergeEntry>, evs: Seq<LoreEvent>)
    requires
        staged_entries_of(xs, of_kind(evs, EventKind::FileStageFile)),
    ensures
        forall|j: int|
            0 <= j < xs.len() ==> (of_kind(evs, EventKind::FileStageFile)[j] matches LoreEvent::FileStageFile(d) && {
                &&& (d.action is Keep <==> #[trigger] xs[j].action is Keep)
                &&& (d.action is Add <==> xs[j].action is Add)
                &&& (d.action is Delete <==> xs[j].action is Delete)
                &&& (d.action is Move <==> xs[j].action is Move)
                &&& (d.action is Copy <==> xs[j].action is Copy)
            }),
{
    assert forall|j: int| 0 <= j < xs.len() implies (of_kind(evs, EventKind::FileStageFile)[j] matches LoreEvent::FileStageFile(d) && {
                &&& (d.action is Keep <==> #[trigger] xs[j].action is Keep)
                &&& (d.action is Add <==> xs[j].action is Add)
                &&& (d.action is Delete <==> xs[j].action is Delete)
                &&& (d.action is Move <==> xs[j].action is Move)
                &&& (d.action is Copy <==> xs[j].action is Copy)
            }) by {
        assert(staged_entry_of(xs[j], of_kind(evs, EventKind::FileStageFile)[j]));
    }
}

/// The result of `file stage_merge`, read off its event stream: one file per
/// `FileStageFile` event, and the revision of the last `FileStageRevision`
/// event.
pub fn stage_merge_from_events(stream: &EventStream, status: &str) -> (r: Result<FileStageMergeResult>)
    ensures
        !stream.ok ==> is_stream_failure(r, *stream, "file stage_merge"@, status@),
        stream.ok ==> (r matches Ok(res) && staged_entries_of(res.files@, of_kind(stream.events@, EventKind::FileStageFile))
            && res.revision@ == last_revision(stream.events@, EventKind::FileStageRevision)),
{
    if let Err(e) = check_stream(stream, "file stage_merge", status) {
        return Err(e);
    }
    let ghost evs = stream.events@;
    let mut files: Vec<FileStageMergeEntry> = Vec::new();
    let mut revision = String::new();
    let mut i: usize = 0;
    while i < stream.events.len()
        invariant
            i <= stream.events.len(),
            evs == stream.events@,
            staged_entries_of(files@, of_kind(evs.take(i as int), EventKind::FileStageFile)),
            revision@ == last_revision(evs.take(i as int), EventKind::FileStageRevision),
        decreases stream.events.len() - i,
    {
        proof {
            lemma_fold_step(evs, EventKind::FileStageFile, i as int);
            lemma_fold_step(evs, EventKind::FileStageRevision, i as int);
        }
        match &stream.events[i] {
            LoreEvent::FileStageFile(d) => {
                files.push(FileStageMergeEntry { path: d.path.clone(), from_path: d.from_path.clone(), action: map_action(d.action) });
            },
            LoreEvent::FileStageRevision(d) => {
                revision = d.revision.clone();
            },
            _ => {},
        }
        i += 1;
    }
    proof {
        lemma_take_all(evs);
    }
    Ok(FileStageMergeResult { files, revision })
}

} // verus!
