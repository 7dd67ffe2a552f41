//! `file stage_move`: stages the move of a file.
use vstd::prelude::*;
use crate::error::Result;
use crate::events::{
    check_stream, is_stream_failure, last_revision, lemma_fold_step, lemma_take_all, of_kind, EventKind,
    EventStream, LoreEvent,
};

verus! {

/// Arguments of `file stage_move`.
#[derive(Debug, Clone)]
pub struct FileStageMoveArgs {
    pub from_path: String,
    pub to_path: String,
}

/// The engine's arguments of `file stage_move`.
#[derive(Debug)]
pub struct LoreFileStageMoveArgs {
    pub from_path: String,
    pub to_path: String,
}

impl FileStageMoveArgs {
    /// The engine's arguments; the paths are passed as given.
    pub fn into_lore(self) -> (r: LoreFileStageMoveArgs)
        ensures
            r.from_path == self.from_path,
            r.to_path == self.to_path,
    {
        LoreFileStageMoveArgs { from_path: self.from_path, to_path: self.to_path }
    }
}

/// What staging did to a file.
#[derive(Debug, Clone, Copy, PartialEq, Eq, Structural)]
pub enum FileStageMoveAction {
    Keep,
    Add,
    Delete,
    Move,
    Copy,
}

/// The staging action of an engine file action.
pub open spec fn stage_action(a: crate::events::FileAction) -> FileStageMoveAction {
    match a {
        crate::events::FileAction::Keep => FileStageMoveAction::Keep,
        crate::events::FileAction::Add => FileStageMoveAction::Add,
        crate::events::FileAction::Delete => FileStageMoveAction::Delete,
        crate::events::FileAction::Move => FileStageMoveAction::Move,
        crate::events::FileAction::Copy => FileStageMoveAction::Copy,
    }
}

/// The staging action of an engine file action.
pub fn map_action(a: crate::events::FileAction) -> (r: FileStageMoveAction)
    ensures
        r == stage_action(a),
{
    match a {
        crate::events::FileAction::Keep => FileStageMoveAction::Keep,
        crate::events::FileAction::Add => FileStageMoveAction::Add,
        crate::events::FileAction::Delete => FileStageMoveAction::Delete,
        crate::events::FileAction::Move => FileStageMoveAction::Move,
        crate::events::FileAction::Copy => FileStageMoveAction::Copy,
    }
}

/// One file staged.
#[derive(Debug, Clone)]
pub struct FileStageMoveEntry {
    pub path: String,
    /// The previous path of a moved file; empty otherwise.
    pub from_path: String,
    pub action: FileStageMoveAction,
}

/// The files staged and the staged revision.
#[derive(Debug, Clone)]
pub struct FileStageMoveResult {
    pub files: Vec<FileStageMoveEntry>,
    /// The staged revision; empty when none was reported.
    pub revision: String,
}

/// True when `x` is the file that event `e` reports.
pub open spec fn staged_entry_of(x: FileStageMoveEntry, e: LoreEvent) -> bool {
    e matches LoreEvent::FileStageFile(d) && x.path == d.path && x.from_path == d.from_path
        && x.action == stage_action(d.action)
}

/// True when `xs` are the files that `evs` report, in order.
pub open spec fn staged_entries_of(xs: Seq<FileStageMoveEntry>, evs: Seq<LoreEvent>) -> bool {
    xs.len() == evs.len() && forall|j: int| 0 <= j < evs.len() ==> staged_entry_of(#[trigger] xs[j], evs[j])
}

/// Every file `file stage_move` reports carries the action the engine took on
/// it: kept as kept, added as added, deleted as deleted, moved as moved and
/// copied as copied. `xs` is what `stage_move_from_events` returns for the events `evs`.
pub proof fn lemma_stage_move_action_is_engine_action(xs: Seq<FileStageMoveEntry>, evs: Seq<LoreEvent>)
    requires
        staged_entries_of(xs, of_kind(evs, EventKind::FileStageFile)),
    ensures
        forall|j: int|
            0 <= j < xs.len() ==> (of_kind(evs, EventKind::FileStageFile)[j] matches LoreEvent::FileStageFile(d) && {
                &&& (d.action is Keep <==> #[trigger] xs[j].action is Keep)
                &&& (d.action is Add <==> xs[j].action is Add)
                &&& (d.action is Delete <==> xs[j].action is Delete)
                &&& (d.action is Move <==> xs[j].action is Move)
                &&& (d.action is Copy <==> xs[j].action is Copy)
            }),
{
    assert forall|j: int| 0 <= j < xs.len() implies (of_kind(evs, EventKind::FileStageFile)[j] matches LoreEvent::FileStageFile(d) && {
                &&& (d.action is Keep <==> #[trigger] xs[j].action is Keep)
                &&& (d.action is Add <==> xs[j].action is Add)
                &&& (d.action is Delete <==> xs[j].action is Delete)
                &&& (d.action is Move <==> xs[j].action is Move)
                &&& (d.action is Copy <==> xs[j].action is Copy)
            }) by {
        assert(staged_entry_of(xs[j], of_kind(evs, EventKind::FileStageFile)[j]));
    }
}

/// The result of `file stage_move`, read off its event stream: one file per
/// `FileStageFile` event, and the revision of the last `FileStageRevision`
/// event.
pub fn stage_move_from_events(stream: &EventStream, status: &str) -> (r: Result<FileStageMoveResult>)
    ensures
        !stream.ok ==> is_stream_failure(r, *stream, "file stage_move"@, status@),
        stream.ok ==> (r matches Ok(res) && staged_entries_of(res.files@, of_kind(stream.events@, EventKind::FileStageFile))
            && res.revision@ == last_revision(stream.events@, EventKind::FileStageRevision)),
{
    if let Err(e) = check_stream(stream, "file stage_move", status) {
        return Err(e);
    }
    let ghost evs = stream.events@;
    let mut files: Vec<FileStageMoveEntry> = Vec::new();
    let mut revision = String::new();
    let mut i: usize = 0;
    while i < stream.events.len()
        invariant
            i <= stream.events.len(),
            evs == stream.events@,
            staged_entries_of(files@, of_kind(evs.take(i as int), EventKind::FileStageFile)),
            revision@ == last_revision(evs.take(i as int), EventKind::FileStageRevision),
        decreases stream.events.len() - i,
    {
        proof {
            lemma_fold_step(evs, EventKind::FileStageFile, i as int);
            lemma_fold_step(evs, EventKind::FileStageRevision, i as int);
        }
        match &stream.events[i] {
            LoreEvent::FileStageFile(d) => {
                files.push(FileStageMoveEntry { path: d.path.clone(), from_path: d.from_path.clone(), action: map_action(d.action) });
            },
            LoreEvent::FileStageRevision(d) => {
                revision = d.revision.clone();
            },
            _ => {},
        }
        i += 1;
    }
    proof {
        lemma_take_all(evs);
    }
    Ok(FileStageMoveResult { files, revision })
}

} // verus!
