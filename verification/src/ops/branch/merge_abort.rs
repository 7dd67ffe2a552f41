//! `branch merge_abort`: abandons a merge in progress.
use vstd::prelude::*;
use crate::error::{LoreError, Result};
use crate::events::{check_stream, find_kind, first_of_kind, is_stream_failure, EventKind, EventStream, LoreEvent};
use crate::global::{flag, flag_of};

verus! {

/// Arguments of `branch merge_abort`.
#[derive(Debug, Clone)]
pub struct BranchMergeAbortArgs {
    /// The link whose merge is abandoned; empty for the repository's own.
    pub link: String,
    /// Leave the merges of links alone.
    pub ignore_links: bool,
}

/// The engine's arguments of `branch merge_abort`.
#[derive(Debug)]
pub struct LoreBranchMergeAbortArgs {
    pub link: String,
    pub ignore_links: u8,
}

impl BranchMergeAbortArgs {
    /// The engine's arguments.
    pub fn into_lore(self) -> (r: LoreBranchMergeAbortArgs)
        ensures
            r.link == self.link,
            r.ignore_links == flag(self.ignore_links),
    {
        LoreBranchMergeAbortArgs { link: self.link, ignore_links: flag_of(self.ignore_links) }
    }
}

/// The revisions the working tree returns to.
#[derive(Debug, Clone)]
pub struct BranchMergeAbortResult {
    pub staged_revision: String,
    pub current_revision: String,
}

/// The result `branch merge_abort` reports: the revisions in its first
/// `BranchMergeAbortBegin` event, or a failure when it reported none.
pub open spec fn merge_abort_reported(evs: Seq<LoreEvent>, r: Result<BranchMergeAbortResult>) -> bool {
    match first_of_kind(evs, EventKind::BranchMergeAbortBegin) {
        Some(i) => evs[i] matches LoreEvent::BranchMergeAbortBegin(d) && r matches Ok(res)
            && res.staged_revision == d.state_staged_revision && res.current_revision == d.state_current_revision,
        None => r matches Err(LoreError::CommandFailed(m))
            && m@ == "branch merge_abort reported success but emitted no BranchMergeAbortBegin event"@,
    }
}

/// The result of `branch merge_abort`, read off its event stream.
pub fn merge_abort_from_events(stream: &EventStream, status: &str) -> (r: Result<BranchMergeAbortResult>)
    ensures
        !stream.ok ==> is_stream_failure(r, *stream, "branch merge_abort"@, status@),
        stream.ok ==> merge_abort_reported(stream.events@, r),
{
    if let Err(e) = check_stream(stream, "branch merge_abort", status) {
        return Err(e);
    }
    if let Some(i) = find_kind(&stream.events, EventKind::BranchMergeAbortBegin) {
        if let LoreEvent::BranchMergeAbortBegin(d) = &stream.events[i] {
            return Ok(BranchMergeAbortResult {
                staged_revision: d.state_staged_revision.clone(),
                current_revision: d.state_current_revision.clone(),
            });
        }
    }
    Err(LoreError::CommandFailed(String::from_str(
        "branch merge_abort reported success but emitted no BranchMergeAbortBegin event",
    )))
}

} // verus!
