//! `branch latest_list`: the latest revision of branches.
use vstd::prelude::*;
use crate::error::Result;
use crate::events::{
    check_stream, is_stream_failure, lemma_fold_step, lemma_take_all, of_kind, EventKind, EventStream, LoreEvent,
};

verus! {

/// Arguments of `branch latest_list`.
#[derive(Debug, Clone)]
pub struct BranchLatestListArgs {
    /// The branch; empty for all.
    pub branch: String,
    /// How many entries at most; 0 for no limit.
    pub limit: u32,
}

/// The engine's arguments of `branch latest_list`.
#[derive(Debug)]
pub struct LoreBranchLatestListArgs {
    pub branch: String,
    pub limit: u32,
}

impl BranchLatestListArgs {
    /// The engine's arguments.
    pub fn into_lore(self) -> (r: LoreBranchLatestListArgs)
        ensures
            r.branch == self.branch,
            r.limit == self.limit,
    {
        LoreBranchLatestListArgs { branch: self.branch, limit: self.limit }
    }
}

/// A branch and its latest revision.
#[derive(Debug, Clone)]
pub struct BranchLatestListEntry {
    pub branch: String,
    pub revision: String,
}

/// The branches with their latest revisions.
#[derive(Debug, Clone)]
pub struct BranchLatestListResult {
    pub entries: Vec<BranchLatestListEntry>,
}

/// True when `x` is the entry that event `e` reports.
pub open spec fn latest_entry_of(x: BranchLatestListEntry, e: LoreEvent) -> bool {
    e matches LoreEvent::BranchLatestListEntry(d) && x.branch == d.branch && x.revision == d.revision
}

/// True when `es` are the entries that the events `evs` report, in order.
pub open spec fn latest_entries_of(es: Seq<BranchLatestListEntry>, evs: Seq<LoreEvent>) -> bool {
    es.len() == evs.len() && forall|j: int| 0 <= j < evs.len() ==> latest_entry_of(#[trigger] es[j], evs[j])
}

/// The result of `branch latest_list`, read off its event stream: one entry
/// per `BranchLatestListEntry` event.
pub fn latest_list_from_events(stream: &EventStream, status: &str) -> (r: Result<BranchLatestListResult>)
    ensures
        !stream.ok ==> is_stream_failure(r, *stream, "branch latest_list"@, status@),
        stream.ok ==> (r matches Ok(res)
            && latest_entries_of(res.entries@, of_kind(stream.events@, EventKind::BranchLatestListEntry))),
{
    if let Err(e) = check_stream(stream, "branch latest_list", status) {
        return Err(e);
    }
    let ghost evs = stream.events@;
    let mut entries: Vec<BranchLatestListEntry> = Vec::new();
    let mut i: usize = 0;
    while i < stream.events.len()
        invariant
            i <= stream.events.len(),
            evs == stream.events@,
            latest_entries_of(entries@, of_kind(evs.take(i as int), EventKind::BranchLatestListEntry)),
        decreases stream.events.len() - i,
    {
        proof {
            lemma_fold_step(evs, EventKind::BranchLatestListEntry, i as int);
        }
        if let LoreEvent::BranchLatestListEntry(d) = &stream.events[i] {
            entries.push(BranchLatestListEntry { branch: d.branch.clone(), revision: d.revision.clone() });
        }
        i += 1;
    }
    proof {
        lemma_take_all(evs);
    }
    Ok(BranchLatestListResult { entries })
}

} // verus!
