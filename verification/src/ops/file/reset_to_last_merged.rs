//! `file reset_to_last_merged`: resets files to their state at the last merge of a branch.
use vstd::prelude::*;
use crate::error::Result;
use crate::events::{
    action_name, action_to_string, check_stream, is_stream_failure, last_of_kind, lemma_fold_step, lemma_take_all,
    of_kind, EventKind, EventStream, FileResetCountData, LoreEvent,
};
use crate::global::{flag, flag_of};

verus! {

/// Arguments of `file reset_to_last_merged`.
#[derive(Debug, Clone)]
pub struct FileResetToLastMergedArgs {
    /// The files reset; empty for every changed file.
    pub paths: Vec<String>,
    /// The branch whose last merge is reset to.
    pub branch: String,
    /// Also delete files the reset leaves untracked.
    pub purge: bool,
}

/// The engine's arguments of `file reset_to_last_merged`.
#[derive(Debug)]
pub struct LoreFileResetToLastMergedArgs {
    pub paths: Vec<String>,
    pub branch: String,
    pub purge: u8,
}

impl FileResetToLastMergedArgs {
    /// The engine's arguments; the paths are passed as given.
    pub fn into_lore(self) -> (r: LoreFileResetToLastMergedArgs)
        ensures
            r.paths == self.paths,
            r.branch == self.branch,
            r.purge == flag(self.purge),
    {
        LoreFileResetToLastMergedArgs { paths: self.paths, branch: self.branch, purge: flag_of(self.purge) }
    }
}

/// One file reset.
#[derive(Debug, Clone)]
pub struct FileResetToLastMergedEntry {
    pub path: String,
    /// The action, by its lower-case name.
    pub action: String,
    /// The previous path of a moved file; empty otherwise.
    pub from_path: String,
}

/// The numbers of directories and files reset and deleted.
#[derive(Debug, Clone)]
pub struct FileResetToLastMergedCounts {
    pub directory_reset_count: u64,
    pub directory_delete_count: u64,
    pub file_reset_count: u64,
    pub file_delete_count: u64,
}

impl Default for FileResetToLastMergedCounts {
    /// All counts zero.
    fn default() -> (r: Self)
        ensures
            r == no_counts(),
    {
        FileResetToLastMergedCounts { directory_reset_count: 0, directory_delete_count: 0, file_reset_count: 0, file_delete_count: 0 }
    }
}

/// The files reset and the counts.
#[derive(Debug, Clone)]
pub struct FileResetToLastMergedResult {
    pub files: Vec<FileResetToLastMergedEntry>,
    pub counts: FileResetToLastMergedCounts,
}

/// All counts zero.
pub open spec fn no_counts() -> FileResetToLastMergedCounts {
    FileResetToLastMergedCounts { directory_reset_count: 0, directory_delete_count: 0, file_reset_count: 0, file_delete_count: 0 }
}

/// The counts `d` reports.
pub open spec fn counts_of(d: FileResetCountData) -> FileResetToLastMergedCounts {
    FileResetToLastMergedCounts {
        directory_reset_count: d.directory_reset_count,
        directory_delete_count: d.directory_delete_count,
        file_reset_count: d.file_reset_count,
        file_delete_count: d.file_delete_count,
    }
}

/// The counts of the last `FileResetEnd` event of `evs`; all zero when none came.
pub open spec fn final_counts(evs: Seq<LoreEvent>) -> FileResetToLastMergedCounts {
    match last_of_kind(evs, EventKind::FileResetEnd) {
        Some(LoreEvent::FileResetEnd(d)) => counts_of(d),
        _ => no_counts(),
    }
}

/// The counts `file reset_to_last_merged` reports are those of the engine's last `FileResetEnd`
/// event, each under its own name: files reset as files reset, files deleted
/// as files deleted, and likewise for directories. With no such event every
/// count is zero. `counts` is what `reset_to_last_merged_from_events` returns for the events `evs`.
pub proof fn lemma_reset_counts_are_the_engine_counts(counts: FileResetToLastMergedCounts, evs: Seq<LoreEvent>)
    requires
        counts == final_counts(evs),
    ensures
        last_of_kind(evs, EventKind::FileResetEnd) matches Some(LoreEvent::FileResetEnd(d)) ==> {
            &&& counts.directory_reset_count == d.directory_reset_count
            &&& counts.directory_delete_count == d.directory_delete_count
            &&& counts.file_reset_count == d.file_reset_count
            &&& counts.file_delete_count == d.file_delete_count
        },
        last_of_kind(evs, EventKind::FileResetEnd) is None ==> {
            &&& counts.directory_reset_count == 0
            &&& counts.directory_delete_count == 0
            &&& counts.file_reset_count == 0
            &&& counts.file_delete_count == 0
        },
{
}

/// True when `x` is the file that event `e` reports.
pub open spec fn reset_entry_of(x: FileResetToLastMergedEntry, e: LoreEvent) -> bool {
    e matches LoreEvent::FileResetFile(d) && x.path == d.path && x.action@ == action_name(d.action)
        && x.from_path == d.from_path
}

/// True when `xs` are the files that `evs` report, in order.
pub open spec fn reset_entries_of(xs: Seq<FileResetToLastMergedEntry>, evs: Seq<LoreEvent>) -> bool {
    xs.len() == evs.len() && forall|j: int| 0 <= j < evs.len() ==> reset_entry_of(#[trigger] xs[j], evs[j])
}

/// The result of `file reset_to_last_merged`, read off its event stream: one file per
/// `FileResetFile` event, and the counts of the last `FileResetEnd` event.
pub fn reset_to_last_merged_from_events(stream: &EventStream, status: &str) -> (r: Result<FileResetToLastMergedResult>)
    ensures
        !stream.ok ==> is_stream_failure(r, *stream, "file reset_to_last_merged"@, status@),
        stream.ok ==> (r matches Ok(res) && reset_entries_of(res.files@, of_kind(stream.events@, EventKind::FileResetFile))
            && res.counts == final_counts(stream.events@)),
{
    if let Err(e) = check_stream(stream, "file reset_to_last_merged", status) {
        return Err(e);
    }
    let ghost evs = stream.events@;
    let mut files: Vec<FileResetToLastMergedEntry> = Vec::new();
    let mut counts = FileResetToLastMergedCounts::default();
    let mut i: usize = 0;
    while i < stream.events.len()
        invariant
            i <= stream.events.len(),
            evs == stream.events@,
            reset_entries_of(files@, of_kind(evs.take(i as int), EventKind::FileResetFile)),
            counts == final_counts(evs.take(i as int)),
        decreases stream.events.len() - i,
    {
        proof {
            lemma_fold_step(evs, EventKind::FileResetFile, i as int);
            lemma_fold_step(evs, EventKind::FileResetEnd, i as int);
        }
        match &stream.events[i] {
            LoreEvent::FileResetFile(d) => {
                files.push(FileResetToLastMergedEntry {
                    path: d.path.clone(),
                    action: action_to_string(&d.action),
                    from_path: d.from_path.clone(),
                });
            },
            LoreEvent::FileResetEnd(d) => {
                counts = FileResetToLastMergedCounts {
                    directory_reset_count: d.directory_reset_count,
                    directory_delete_count: d.directory_delete_count,
                    file_reset_count: d.file_reset_count,
                    file_delete_count: d.file_delete_count,
                };
            },
            _ => {},
        }
        i += 1;
    }
    proof {
        lemma_take_all(evs);
    }
    Ok(FileResetToLastMergedResult { files, counts })
}

} // verus!
