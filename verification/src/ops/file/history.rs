//! `file history`: the revisions that changed a file.
use vstd::prelude::*;
use crate::error::Result;
use crate::events::{
    check_stream, is_stream_failure, lemma_fold_step, lemma_take_all, of_kind, EventKind, EventStream,
    FileHistoryData, HashText, LoreEvent,
};

verus! {

/// Arguments of `file history`.
#[derive(Debug, Clone)]
pub struct FileHistoryArgs {
    pub path: String,
    /// The revision to start from; empty for the current one.
    pub revision: String,
    /// The branch; empty for the current one.
    pub branch: String,
    /// How many revisions at most; 0 for no limit.
    pub length: u32,
    /// How deep into merged branches; 0 for no limit.
    pub depth: u32,
}

/// The engine's arguments of `file history`.
#[derive(Debug)]
pub struct LoreFileHistoryArgs {
    pub path: String,
    pub revision: String,
    pub branch: String,
    pub length: u32,
    pub depth: u32,
}

impl FileHistoryArgs {
    /// The engine's arguments; the path is passed as given.
    pub fn into_lore(self) -> (r: LoreFileHistoryArgs)
        ensures
            r.path == self.path,
            r.revision == self.revision,
            r.branch == self.branch,
            r.length == self.length,
            r.depth == self.depth,
    {
        LoreFileHistoryArgs {
            path: self.path,
            revision: self.revision,
            branch: self.branch,
            length: self.length,
            depth: self.depth,
        }
    }
}

/// What a revision did to the file.
#[derive(Debug, Clone, Copy, PartialEq, Eq, Structural)]
pub enum FileHistoryAction {
    Keep,
    Add,
    Delete,
    Move,
    Copy,
}

/// The history action of an engine file action.
pub open spec fn history_action(a: crate::events::FileAction) -> FileHistoryAction {
    match a {
        crate::events::FileAction::Keep => FileHistoryAction::Keep,
        crate::events::FileAction::Add => FileHistoryAction::Add,
        crate::events::FileAction::Delete => FileHistoryAction::Delete,
        crate::events::FileAction::Move => FileHistoryAction::Move,
        crate::events::FileAction::Copy => FileHistoryAction::Copy,
    }
}

/// The history action of an engine file action.
pub fn map_action(a: crate::events::FileAction) -> (r: FileHistoryAction)
    ensures
        r == history_action(a),
{
    match a {
        crate::events::FileAction::Keep => FileHistoryAction::Keep,
        crate::events::FileAction::Add => FileHistoryAction::Add,
        crate::events::FileAction::Delete => FileHistoryAction::Delete,
        crate::events::FileAction::Move => FileHistoryAction::Move,
        crate::events::FileAction::Copy => FileHistoryAction::Copy,
    }
}

/// One revision of the file.
#[derive(Debug, Clone)]
pub struct FileHistoryEntry {
    pub path: String,
    pub repository: String,
    pub revision: String,
    pub revision_number: u64,
    /// The parent revisions, the zero hash left out.
    pub parents: Vec<String>,
    pub address: String,
    pub size: u64,
    pub action: FileHistoryAction,
}

/// The revisions of the file.
#[derive(Debug, Clone)]
pub struct FileHistoryResult {
    pub entries: Vec<FileHistoryEntry>,
}

/// The texts of the hashes in `hs` that are not the zero hash, in order.
pub open spec fn nonzero_parents(hs: Seq<HashText>) -> Seq<String>
    decreases hs.len(),
{
    if hs.len() == 0 {
        Seq::empty()
    } else if hs.last().is_zero {
        nonzero_parents(hs.drop_last())
    } else {
        nonzero_parents(hs.drop_last()).push(hs.last().text)
    }
}

/// The texts of the parents that are not the zero hash, in order.
pub fn parents_of(hs: &Vec<HashText>) -> (r: Vec<String>)
    ensures
        r@ == nonzero_parents(hs@),
{
    let mut r: Vec<String> = Vec::new();
    let mut i: usize = 0;
    while i < hs.len()
        invariant
            i <= hs.len(),
            r@ == nonzero_parents(hs@.take(i as int)),
        decreases hs.len() - i,
    {
        proof {
            assert(hs@.take(i + 1).drop_last() =~= hs@.take(i as int));
        }
        if !hs[i].is_zero {
            r.push(hs[i].text.clone());
        }
        i += 1;
    }
    proof {
        assert(hs@.take(i as int) =~= hs@);
    }
    r
}

/// True when `x` is the revision that `d` reports.
pub open spec fn history_of(x: FileHistoryEntry, d: FileHistoryData) -> bool {
    &&& x.path == d.path
    &&& x.repository == d.repository
    &&& x.revision == d.revision
    &&& x.revision_number == d.revision_number
    &&& x.parents@ == nonzero_parents(d.parents@)
    &&& x.address == d.address
    &&& x.size == d.size
    &&& x.action == history_action(d.action)
}

/// True when `x` is the revision that event `e` reports.
pub open spec fn history_entry_of(x: FileHistoryEntry, e: LoreEvent) -> bool {
    e matches LoreEvent::FileHistory(d) && history_of(x, d)
}

/// True when `xs` are the revisions that `evs` report, in order.
pub open spec fn history_entries_of(xs: Seq<FileHistoryEntry>, evs: Seq<LoreEvent>) -> bool {
    xs.len() == evs.len() && forall|j: int| 0 <= j < evs.len() ==> history_entry_of(#[trigger] xs[j], evs[j])
}

/// Each revision of the history shows what that revision did to the file,
/// as the engine reported it: a revision that deleted the file shows a
/// deletion, one that added it an addition, and likewise for keep, move and
/// copy. `xs` is what `history_from_events` returns for the events `evs`.
pub proof fn lemma_history_action_is_engine_action(xs: Seq<FileHistoryEntry>, evs: Seq<LoreEvent>)
    requires
        history_entries_of(xs, of_kind(evs, EventKind::FileHistory)),
    ensures
        forall|j: int|
            0 <= j < xs.len() ==> (of_kind(evs, EventKind::FileHistory)[j] matches LoreEvent::FileHistory(d) && {
                &&& (d.action is Keep <==> #[trigger] xs[j].action is Keep)
                &&& (d.action is Add <==> xs[j].action is Add)
                &&& (d.action is Delete <==> xs[j].action is Delete)
                &&& (d.action is Move <==> xs[j].action is Move)
                &&& (d.action is Copy <==> xs[j].action is Copy)
            }),
{
    assert forall|j: int| 0 <= j < xs.len() implies (of_kind(evs, EventKind::FileHistory)[j] matches LoreEvent::FileHistory(d) && {
        &&& (d.action is Keep <==> #[trigger] xs[j].action is Keep)
        &&& (d.action is Add <==> xs[j].action is Add)
        &&& (d.action is Delete <==> xs[j].action is Delete)
        &&& (d.action is Move <==> xs[j].action is Move)
        &&& (d.action is Copy <==> xs[j].action is Copy)
    }) by {
        assert(history_entry_of(xs[j], of_kind(evs, EventKind::FileHistory)[j]));
    }
}

/// The result of `file history`, read off its event stream: one entry per
/// `FileHistory` event.
pub fn history_from_events(stream: &EventStream, status: &str) -> (r: Result<FileHistoryResult>)
    ensures
        !stream.ok ==> is_stream_failure(r, *stream, "file history"@, status@),
        stream.ok ==> (r matches Ok(res)
            && history_entries_of(res.entries@, of_kind(stream.events@, EventKind::FileHistory))),
{
    if let Err(e) = check_stream(stream, "file history", status) {
        return Err(e);
    }
    let ghost evs = stream.events@;
    let mut entries: Vec<FileHistoryEntry> = Vec::new();
    let mut i: usize = 0;
    while i < stream.events.len()
        invariant
            i <= stream.events.len(),
            evs == stream.events@,
            history_entries_of(entries@, of_kind(evs.take(i as int), EventKind::FileHistory)),
        decreases stream.events.len() - i,
    {
        proof {
            lemma_fold_step(evs, EventKind::FileHistory, i as int);
        }
        if let LoreEvent::FileHistory(d) = &stream.events[i] {
            entries.push(FileHistoryEntry {
                path: d.path.clone(),
                repository: d.repository.clone(),
                revision: d.revision.clone(),
                revision_number: d.revision_number,
                parents: parents_of(&d.parents),
                address: d.address.clone(),
                size: d.size,
                action: map_action(d.action),
            });
        }
        i += 1;
    }
    proof {
        lemma_take_all(evs);
    }
    Ok(FileHistoryResult { entries })
}

} // verus!
