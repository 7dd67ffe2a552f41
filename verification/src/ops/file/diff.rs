//! `file diff`: the textual differences of files between two revisions.
use vstd::prelude::*;
use crate::error::Result;
use crate::events::{
    check_stream, is_stream_failure, lemma_fold_step, lemma_take_all, of_kind, EventKind, EventStream, LoreEvent,
};
use crate::global::{flag, flag_of};

verus! {

/// Arguments of `file diff`.
#[derive(Debug, Clone)]
pub struct DiffArgs {
    /// The files compared; empty for every changed file.
    pub paths: Vec<String>,
    /// The revision compared from; empty for the current one.
    pub source_revision: String,
    /// The revision compared to; empty for the working tree.
    pub target_revision: String,
    /// Produce three-way diffs.
    pub diff3: bool,
    /// Lines of context around each change; three by default.
    pub context_lines: u32,
    pub ignore_whitespace_eol: bool,
    pub ignore_whitespace_inline: bool,
}

/// The lines of context a diff shows when none are asked for: three.
pub fn default_context_lines() -> (r: u32)
    ensures
        r == 3,
{
    3
}

/// The engine's arguments of `file diff`.
#[derive(Debug)]
pub struct LoreFileDiffArgs {
    pub paths: Vec<String>,
    pub source_revision: String,
    pub target_revision: String,
    pub diff3: u8,
    pub context_lines: u32,
    pub ignore_whitespace_eol: u8,
    pub ignore_whitespace_inline: u8,
}

impl DiffArgs {
    /// The engine's arguments; the paths are passed as given.
    pub fn into_lore(self) -> (r: LoreFileDiffArgs)
        ensures
            r.paths == self.paths,
            r.source_revision == self.source_revision,
            r.target_revision == self.target_revision,
            r.diff3 == flag(self.diff3),
            r.context_lines == self.context_lines,
            r.ignore_whitespace_eol == flag(self.ignore_whitespace_eol),
            r.ignore_whitespace_inline == flag(self.ignore_whitespace_inline),
    {
        LoreFileDiffArgs {
            paths: self.paths,
            source_revision: self.source_revision,
            target_revision: self.target_revision,
            diff3: flag_of(self.diff3),
            context_lines: self.context_lines,
            ignore_whitespace_eol: flag_of(self.ignore_whitespace_eol),
            ignore_whitespace_inline: flag_of(self.ignore_whitespace_inline),
        }
    }
}

/// What a change did to a file.
#[derive(Debug, Clone, Copy, PartialEq, Eq, Structural)]
pub enum FileAction {
    Keep,
    Add,
    Delete,
    Move,
    Copy,
}

/// The diff action of an engine file action.
pub open spec fn file_action(a: crate::events::FileAction) -> FileAction {
    match a {
        crate::events::FileAction::Keep => FileAction::Keep,
        crate::events::FileAction::Add => FileAction::Add,
        crate::events::FileAction::Delete => FileAction::Delete,
        crate::events::FileAction::Move => FileAction::Move,
        crate::events::FileAction::Copy => FileAction::Copy,
    }
}

/// The diff action of an engine file action.
pub fn map_action(a: crate::events::FileAction) -> (r: FileAction)
    ensures
        r == file_action(a),
{
    match a {
        crate::events::FileAction::Keep => FileAction::Keep,
        crate::events::FileAction::Add => FileAction::Add,
        crate::events::FileAction::Delete => FileAction::Delete,
        crate::events::FileAction::Move => FileAction::Move,
        crate::events::FileAction::Copy => FileAction::Copy,
    }
}

/// The diff of one file.
#[derive(Debug, Clone)]
pub struct FileDiffEntry {
    pub path: String,
    pub patch: String,
    pub action: FileAction,
}

/// True when `x` is the diff that event `e` reports.
pub open spec fn diff_entry_of(x: FileDiffEntry, e: LoreEvent) -> bool {
    e matches LoreEvent::FileDiff(d) && x.path == d.path && x.patch == d.patch && x.action == file_action(d.action)
}

/// True when `xs` are the diffs that `evs` report, in order.
pub open spec fn diff_entries_of(xs: Seq<FileDiffEntry>, evs: Seq<LoreEvent>) -> bool {
    xs.len() == evs.len() && forall|j: int| 0 <= j < evs.len() ==> diff_entry_of(#[trigger] xs[j], evs[j])
}

/// Each file of a diff carries the action the engine reported for it: an
/// added file shows as added, a deleted one as deleted, and likewise for
/// keep, move and copy. `xs` is what `diff_from_events` returns for the
/// events `evs`.
pub proof fn lemma_diff_action_is_engine_action(xs: Seq<FileDiffEntry>, evs: Seq<LoreEvent>)
    requires
        diff_entries_of(xs, of_kind(evs, EventKind::FileDiff)),
    ensures
        forall|j: int|
            0 <= j < xs.len() ==> (of_kind(evs, EventKind::FileDiff)[j] matches LoreEvent::FileDiff(d) && {
                &&& (d.action is Keep <==> #[trigger] xs[j].action is Keep)
                &&& (d.action is Add <==> xs[j].action is Add)
                &&& (d.action is Delete <==> xs[j].action is Delete)
                &&& (d.action is Move <==> xs[j].action is Move)
                &&& (d.action is Copy <==> xs[j].action is Copy)
            }),
{
    assert forall|j: int| 0 <= j < xs.len() implies (of_kind(evs, EventKind::FileDiff)[j] matches LoreEvent::FileDiff(d) && {
        &&& (d.action is Keep <==> #[trigger] xs[j].action is Keep)
        &&& (d.action is Add <==> xs[j].action is Add)
        &&& (d.action is Delete <==> xs[j].action is Delete)
        &&& (d.action is Move <==> xs[j].action is Move)
        &&& (d.action is Copy <==> xs[j].action is Copy)
    }) by {
        assert(diff_entry_of(xs[j], of_kind(evs, EventKind::FileDiff)[j]));
    }
}

/// The result of `file diff`, read off its event stream: one diff per
/// `FileDiff` event.
pub fn diff_from_events(stream: &EventStream, status: &str) -> (r: Result<Vec<FileDiffEntry>>)
    ensures
        !stream.ok ==> is_stream_failure(r, *stream, "file diff"@, status@),
        stream.ok ==> (r matches Ok(res) && diff_entries_of(res@, of_kind(stream.events@, EventKind::FileDiff))),
{
    if let Err(e) = check_stream(stream, "file diff", status) {
        return Err(e);
    }
    let ghost evs = stream.events@;
    let mut entries: Vec<FileDiffEntry> = Vec::new();
    let mut i: usize = 0;
    while i < stream.events.len()
        invariant
            i <= stream.events.len(),
            evs == stream.events@,
            diff_entries_of(entries@, of_kind(evs.take(i as int), EventKind::FileDiff)),
        decreases stream.events.len() - i,
    {
        proof {
            lemma_fold_step(evs, EventKind::FileDiff, i as int);
        }
        if let LoreEvent::FileDiff(d) = &stream.events[i] {
            entries.push(FileDiffEntry { path: d.path.clone(), patch: d.patch.clone(), action: map_action(d.action) });
        }
        i += 1;
    }
    proof {
        lemma_take_all(evs);
    }
    Ok(entries)
}

} // verus!
