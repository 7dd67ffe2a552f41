//! `file unstage`: takes files out of the next commit.
use vstd::prelude::*;
use crate::error::Result;
use crate::events::{
    action_name, action_to_string, check_stream, is_stream_failure, last_of_kind, lemma_fold_step, lemma_take_all,
    of_kind, EventKind, EventStream, FileUnstageCountData, LoreEvent,
};
use crate::paths::{resolved, resolve_paths};

verus! {

/// Arguments of `file unstage`.
#[derive(Debug, Clone)]
pub struct FileUnstageArgs {
    /// The files unstaged, relative to the repository root or absolute.
    pub paths: Vec<String>,
}

/// The engine's arguments of `file unstage`.
#[derive(Debug)]
pub struct LoreFileUnstageArgs {
    pub paths: Vec<String>,
}

impl FileUnstageArgs {
    /// The engine's arguments, with every path resolved against `repo_root`.
    pub fn into_lore(self, repo_root: &str) -> (r: LoreFileUnstageArgs)
        ensures
            r.paths.len() == self.paths.len(),
            forall|i: int| 0 <= i < self.paths.len() ==> #[trigger] r.paths[i]@ == resolved(repo_root@, self.paths[i]@),
    {
        LoreFileUnstageArgs { paths: resolve_paths(repo_root, &self.paths) }
    }
}

/// One file unstaged.
#[derive(Debug, Clone)]
pub struct FileUnstageEntry {
    pub path: String,
    /// The action, by its lower-case name.
    pub action: String,
}

/// The numbers of directories and files unstaged and discarded.
#[derive(Debug, Clone)]
pub struct FileUnstageCounts {
    pub directory_unstaged_count: u64,
    pub directory_discarded_count: u64,
    pub file_unstaged_count: u64,
    pub file_discarded_count: u64,
    pub total_count: u64,
}

impl Default for FileUnstageCounts {
    /// All counts zero.
    fn default() -> (r: Self)
        ensures
            r == no_counts(),
    {
        FileUnstageCounts {
            directory_unstaged_count: 0,
            directory_discarded_count: 0,
            file_unstaged_count: 0,
            file_discarded_count: 0,
            total_count: 0,
        }
    }
}

/// The files unstaged and the counts.
#[derive(Debug, Clone)]
pub struct FileUnstageResult {
    pub files: Vec<FileUnstageEntry>,
    pub counts: FileUnstageCounts,
}

/// All counts zero.
pub open spec fn no_counts() -> FileUnstageCounts {
    FileUnstageCounts {
        directory_unstaged_count: 0,
        directory_discarded_count: 0,
        file_unstaged_count: 0,
        file_discarded_count: 0,
        total_count: 0,
    }
}

/// The counts `d` reports.
pub open spec fn counts_of(d: FileUnstageCountData) -> FileUnstageCounts {
    FileUnstageCounts {
        directory_unstaged_count: d.directory_unstaged_count,
        directory_discarded_count: d.directory_discarded_count,
        file_unstaged_count: d.file_unstaged_count,
        file_discarded_count: d.file_discarded_count,
        total_count: d.total_count,
    }
}

/// The counts of the last `FileUnstageEnd` event of `evs`; all zero when none came.
pub open spec fn final_counts(evs: Seq<LoreEvent>) -> FileUnstageCounts {
    match last_of_kind(evs, EventKind::FileUnstageEnd) {
        Some(LoreEvent::FileUnstageEnd(d)) => counts_of(d),
        _ => no_counts(),
    }
}

/// The counts `file unstage` reports are those of the engine's last
/// `FileUnstageEnd` event, each under its own name: files unstaged as files
/// unstaged, files discarded as files discarded, and likewise for the
/// directory counts and the total. With no such event every count is zero.
/// `counts` is what `unstage_from_events` returns for the events `evs`.
pub proof fn lemma_unstage_counts_are_the_engine_counts(counts: FileUnstageCounts, evs: Seq<LoreEvent>)
    requires
        counts == final_counts(evs),
    ensures
        last_of_kind(evs, EventKind::FileUnstageEnd) matches Some(LoreEvent::FileUnstageEnd(d)) ==> {
            &&& counts.directory_unstaged_count == d.directory_unstaged_count
            &&& counts.directory_discarded_count == d.directory_discarded_count
            &&& counts.file_unstaged_count == d.file_unstaged_count
            &&& counts.file_discarded_count == d.file_discarded_count
            &&& counts.total_count == d.total_count
        },
        last_of_kind(evs, EventKind::FileUnstageEnd) is None ==> {
            &&& counts.directory_unstaged_count == 0
            &&& counts.directory_discarded_count == 0
            &&& counts.file_unstaged_count == 0
            &&& counts.file_discarded_count == 0
            &&& counts.total_count == 0
        },
{
}

/// True when `x` is the file that event `e` reports.
pub open spec fn unstage_entry_of(x: FileUnstageEntry, e: LoreEvent) -> bool {
    e matches LoreEvent::FileUnstageFile(d) && x.path == d.path && x.action@ == action_name(d.action)
}

/// True when `xs` are the files that `evs` report, in order.
pub open spec fn unstage_entries_of(xs: Seq<FileUnstageEntry>, evs: Seq<LoreEvent>) -> bool {
    xs.len() == evs.len() && forall|j: int| 0 <= j < evs.len() ==> unstage_entry_of(#[trigger] xs[j], evs[j])
}

/// The result of `file unstage`, read off its event stream: one file per
/// `FileUnstageFile` event, and the counts of the last `FileUnstageEnd` event.
pub fn unstage_from_events(stream: &EventStream, status: &str) -> (r: Result<FileUnstageResult>)
    ensures
        !stream.ok ==> is_stream_failure(r, *stream, "file unstage"@, status@),
        stream.ok ==> (r matches Ok(res)
            && unstage_entries_of(res.files@, of_kind(stream.events@, EventKind::FileUnstageFile))
            && res.counts == final_counts(stream.events@)),
{
    if let Err(e) = check_stream(stream, "file unstage", status) {
        return Err(e);
    }
    let ghost evs = stream.events@;
    let mut files: Vec<FileUnstageEntry> = Vec::new();
    let mut counts = FileUnstageCounts::default();
    let mut i: usize = 0;
    while i < stream.events.len()
        invariant
            i <= stream.events.len(),
            evs == stream.events@,
            unstage_entries_of(files@, of_kind(evs.take(i as int), EventKind::FileUnstageFile)),
            counts == final_counts(evs.take(i as int)),
        decreases stream.events.len() - i,
    {
        proof {
            lemma_fold_step(evs, EventKind::FileUnstageFile, i as int);
            lemma_fold_step(evs, EventKind::FileUnstageEnd, i as int);
        }
        match &stream.events[i] {
            LoreEvent::FileUnstageFile(d) => {
                files.push(FileUnstageEntry { path: d.path.clone(), action: action_to_string(&d.action) });
            },
            LoreEvent::FileUnstageEnd(d) => {
                counts = FileUnstageCounts {
                    directory_unstaged_count: d.directory_unstaged_count,
                    directory_discarded_count: d.directory_discarded_count,
                    file_unstaged_count: d.file_unstaged_count,
                    file_discarded_count: d.file_discarded_count,
                    total_count: d.total_count,
                };
            },
            _ => {},
        }
        i += 1;
    }
    proof {
        lemma_take_all(evs);
    }
    Ok(FileUnstageResult { files, counts })
}

} // verus!
