//! `branch merge_resolve`: marks conflicted files of a merge as resolved.
use vstd::prelude::*;
use crate::error::Result;
use crate::events::{
    check_stream, is_stream_failure, last_revision, lemma_fold_step, lemma_take_all, of_kind, paths_of, EventKind,
    EventStream, LoreEvent,
};

verus! {

/// Arguments of `branch merge_resolve`.
#[derive(Debug, Clone)]
pub struct BranchMergeResolveArgs {
    /// The files resolved.
    pub paths: Vec<String>,
}

/// The engine's arguments of `branch merge_resolve`.
#[derive(Debug)]
pub struct LoreBranchMergeResolveArgs {
    pub paths: Vec<String>,
}

impl BranchMergeResolveArgs {
    /// The engine's arguments; the paths are passed as given.
    pub fn into_lore(self) -> (r: LoreBranchMergeResolveArgs)
        ensures
            r.paths == self.paths,
    {
        LoreBranchMergeResolveArgs { paths: self.paths }
    }
}

/// The files resolved and the resulting staged revision.
#[derive(Debug, Clone)]
pub struct BranchMergeResolveResult {
    pub resolved_paths: Vec<String>,
    /// The revision of the last revision event; empty when there was none.
    pub revision: String,
}

/// The result of `branch merge_resolve`, read off its event stream: one path
/// per `BranchMergeResolveFile` event, and the revision of the last
/// `BranchMergeResolveRevision` event.
pub fn merge_resolve_from_events(stream: &EventStream, status: &str) -> (r: Result<BranchMergeResolveResult>)
    ensures
        !stream.ok ==> is_stream_failure(r, *stream, "branch merge_resolve"@, status@),
        stream.ok ==> (r matches Ok(res)
            && paths_of(res.resolved_paths@, of_kind(stream.events@, EventKind::BranchMergeResolveFile))
            && res.revision@ == last_revision(stream.events@, EventKind::BranchMergeResolveRevision)),
{
    if let Err(e) = check_stream(stream, "branch merge_resolve", status) {
        return Err(e);
    }
    let ghost evs = stream.events@;
    let mut resolved_paths: Vec<String> = Vec::new();
    let mut revision = String::new();
    let mut i: usize = 0;
    while i < stream.events.len()
        invariant
            i <= stream.events.len(),
            evs == stream.events@,
            paths_of(resolved_paths@, of_kind(evs.take(i as int), EventKind::BranchMergeResolveFile)),
            revision@ == last_revision(evs.take(i as int), EventKind::BranchMergeResolveRevision),
        decreases stream.events.len() - i,
    {
        proof {
            lemma_fold_step(evs, EventKind::BranchMergeResolveFile, i as int);
            lemma_fold_step(evs, EventKind::BranchMergeResolveRevision, i as int);
        }
        match &stream.events[i] {
            LoreEvent::BranchMergeResolveFile(d) => {
                resolved_paths.push(d.path.clone());
            },
            LoreEvent::BranchMergeResolveRevision(d) => {
                revision = d.revision.clone();
            },
            _ => {},
        }
        i += 1;
    }
    proof {
        lemma_take_all(evs);
    }
    Ok(BranchMergeResolveResult { resolved_paths, revision })
}

} // verus!
