//! `branch merge_unresolve`: marks resolved files of a merge as conflicted
//! again.
use vstd::prelude::*;
use crate::error::Result;
use crate::events::{
    check_stream, is_stream_failure, lemma_fold_step, lemma_take_all, of_kind, paths_of, EventKind, EventStream,
    LoreEvent,
};

verus! {

/// Arguments of `branch merge_unresolve`.
#[derive(Debug, Clone)]
pub struct BranchMergeUnresolveArgs {
    /// The files to mark conflicted again.
    pub paths: Vec<String>,
}

/// The engine's arguments of `branch merge_unresolve`.
#[derive(Debug)]
pub struct LoreBranchMergeUnresolveArgs {
    pub paths: Vec<String>,
}

impl BranchMergeUnresolveArgs {
    /// The engine's arguments; the paths are passed as given, and the
    /// repository root is not used.
    pub fn into_lore(self, repo_root: &str) -> (r: LoreBranchMergeUnresolveArgs)
        ensures
            r.paths == self.paths,
    {
        LoreBranchMergeUnresolveArgs { paths: self.paths }
    }
}

/// The files marked conflicted again.
#[derive(Debug, Clone)]
pub struct BranchMergeUnresolveResult {
    pub unresolved_paths: Vec<String>,
}

/// The result of `branch merge_unresolve`, read off its event stream: one
/// path per `BranchMergeUnresolveFile` event.
pub fn merge_unresolve_from_events(stream: &EventStream, status: &str) -> (r: Result<BranchMergeUnresolveResult>)
    ensures
        !stream.ok ==> is_stream_failure(r, *stream, "branch merge_unresolve"@, status@),
        stream.ok ==> (r matches Ok(res)
            && paths_of(res.unresolved_paths@, of_kind(stream.events@, EventKind::BranchMergeUnresolveFile))),
{
    if let Err(e) = check_stream(stream, "branch merge_unresolve", status) {
        return Err(e);
    }
    let ghost evs = stream.events@;
    let mut unresolved_paths: Vec<String> = Vec::new();
    let mut i: usize = 0;
    while i < stream.events.len()
        invariant
            i <= stream.events.len(),
            evs == stream.events@,
            paths_of(unresolved_paths@, of_kind(evs.take(i as int), EventKind::BranchMergeUnresolveFile)),
        decreases stream.events.len() - i,
    {
        proof {
            lemma_fold_step(evs, EventKind::BranchMergeUnresolveFile, i as int);
        }
        if let LoreEvent::BranchMergeUnresolveFile(d) = &stream.events[i] {
            unresolved_paths.push(d.path.clone());
        }
        i += 1;
    }
    proof {
        lemma_take_all(evs);
    }
    Ok(BranchMergeUnresolveResult { unresolved_paths })
}

} // verus!
