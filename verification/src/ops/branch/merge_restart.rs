//! `branch merge_restart`: restarts the merge of conflicted files.
use vstd::prelude::*;
use crate::error::Result;
use crate::events::{
    check_stream, is_stream_failure, lemma_fold_step, lemma_take_all, of_kind, paths_of, EventKind, EventStream,
    LoreEvent,
};

verus! {

/// Arguments of `branch merge_restart`.
#[derive(Debug, Clone)]
pub struct BranchMergeRestartArgs {
    /// The files whose merge restarts.
    pub paths: Vec<String>,
}

/// The engine's arguments of `branch merge_restart`.
#[derive(Debug)]
pub struct LoreBranchMergeRestartArgs {
    pub paths: Vec<String>,
}

impl BranchMergeRestartArgs {
    /// The engine's arguments; the paths are passed as given, and the
    /// repository root is not used.
    pub fn into_lore(self, repo_root: &str) -> (r: LoreBranchMergeRestartArgs)
        ensures
            r.paths == self.paths,
    {
        LoreBranchMergeRestartArgs { paths: self.paths }
    }
}

/// A file the restarted merge wrote to the working tree.
#[derive(Debug, Clone)]
pub struct MergeRestartSyncedFile {
    pub path: String,
    pub size: u64,
    /// The action, as the engine names it.
    pub action: String,
    pub is_file: bool,
}

/// The files still conflicted and the files written.
#[derive(Debug, Clone)]
pub struct BranchMergeRestartResult {
    pub conflict_files: Vec<String>,
    pub synced_files: Vec<MergeRestartSyncedFile>,
}

/// True when `f` is the written file that event `e` reports.
pub open spec fn synced_file_of(f: MergeRestartSyncedFile, e: LoreEvent) -> bool {
    e matches LoreEvent::RevisionSyncFile(d) && f.path == d.path && f.size == d.size && f.action == d.action
        && f.is_file == (d.flag_file != 0)
}

/// True when `fs` are the written files that `evs` report, in order.
pub open spec fn synced_files_of(fs: Seq<MergeRestartSyncedFile>, evs: Seq<LoreEvent>) -> bool {
    fs.len() == evs.len() && forall|j: int| 0 <= j < evs.len() ==> synced_file_of(#[trigger] fs[j], evs[j])
}

/// The result of `branch merge_restart`, read off its event stream: one
/// conflicted path per `BranchMergeConflictFile` event and one written file
/// per `RevisionSyncFile` event.
pub fn merge_restart_from_events(stream: &EventStream, status: &str) -> (r: Result<BranchMergeRestartResult>)
    ensures
        !stream.ok ==> is_stream_failure(r, *stream, "branch merge_restart"@, status@),
        stream.ok ==> (r matches Ok(res)
            && paths_of(res.conflict_files@, of_kind(stream.events@, EventKind::BranchMergeConflictFile))
            && synced_files_of(res.synced_files@, of_kind(stream.events@, EventKind::RevisionSyncFile))),
{
    if let Err(e) = check_stream(stream, "branch merge_restart", status) {
        return Err(e);
    }
    let ghost evs = stream.events@;
    let mut conflict_files: Vec<String> = Vec::new();
    let mut synced_files: Vec<MergeRestartSyncedFile> = Vec::new();
    let mut i: usize = 0;
    while i < stream.events.len()
        invariant
            i <= stream.events.len(),
            evs == stream.events@,
            paths_of(conflict_files@, of_kind(evs.take(i as int), EventKind::BranchMergeConflictFile)),
            synced_files_of(synced_files@, of_kind(evs.take(i as int), EventKind::RevisionSyncFile)),
        decreases stream.events.len() - i,
    {
        proof {
            lemma_fold_step(evs, EventKind::BranchMergeConflictFile, i as int);
            lemma_fold_step(evs, EventKind::RevisionSyncFile, i as int);
        }
        match &stream.events[i] {
            LoreEvent::BranchMergeConflictFile(d) => {
                conflict_files.push(d.path.clone());
            },
            LoreEvent::RevisionSyncFile(d) => {
                synced_files.push(MergeRestartSyncedFile {
                    path: d.path.clone(),
                    size: d.size,
                    action: d.action.clone(),
                    is_file: d.flag_file != 0,
                });
            },
            _ => {},
        }
        i += 1;
    }
    proof {
        lemma_take_all(evs);
    }
    Ok(BranchMergeRestartResult { conflict_files, synced_files })
}

} // verus!
