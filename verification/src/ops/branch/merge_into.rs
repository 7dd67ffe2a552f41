//! `branch merge_into`: merges the current branch into another one.
use vstd::prelude::*;
use crate::error::{LoreError, Result};
use crate::events::{check_stream, find_kind, first_of_kind, is_stream_failure, EventKind, EventStream, LoreEvent};
use crate::global::{flag, flag_of};

verus! {

/// Arguments of `branch merge_into`.
#[derive(Debug, Clone)]
pub struct BranchMergeIntoArgs {
    /// The branch merged into, by name.
    pub branch: String,
    /// The branch merged into, by id; empty when named.
    pub branch_id: String,
    /// The merge revision's message.
    pub message: String,
    /// The link whose branch is merged; empty for the repository's own.
    pub link: String,
    /// Leave links alone.
    pub ignore_links: bool,
}

/// The engine's arguments of `branch merge_into`. The branch id is carried
/// as the text given; the engine parses it as a context, taking the empty
/// context for text that does not parse.
#[derive(Debug)]
pub struct LoreBranchMergeIntoArgs {
    pub branch: String,
    pub branch_id: String,
    pub message: String,
    pub link: String,
    pub ignore_links: u8,
}

impl BranchMergeIntoArgs {
    /// The engine's arguments.
    pub fn into_lore(self) -> (r: LoreBranchMergeIntoArgs)
        ensures
            r.branch == self.branch,
            r.branch_id == self.branch_id,
            r.message == self.message,
            r.link == self.link,
            r.ignore_links == flag(self.ignore_links),
    {
        LoreBranchMergeIntoArgs {
            branch: self.branch,
            branch_id: self.branch_id,
            message: self.message,
            link: self.link,
            ignore_links: flag_of(self.ignore_links),
        }
    }
}

/// The merge revision made.
#[derive(Debug, Clone)]
pub struct BranchMergeIntoResult {
    pub revision: String,
    pub revision_number: u64,
}

/// The result `branch merge_into` reports: the revision in its first
/// `BranchMergeIntoRevision` event, or a failure when it reported none.
pub open spec fn merge_into_reported(evs: Seq<LoreEvent>, r: Result<BranchMergeIntoResult>) -> bool {
    match first_of_kind(evs, EventKind::BranchMergeIntoRevision) {
        Some(i) => evs[i] matches LoreEvent::BranchMergeIntoRevision(d) && r matches Ok(res)
            && res.revision == d.revision && res.revision_number == d.revision_number,
        None => r matches Err(LoreError::CommandFailed(m))
            && m@ == "branch merge_into reported success but emitted no BranchMergeIntoRevision event"@,
    }
}

/// The result of `branch merge_into`, read off its event stream.
pub fn merge_into_from_events(stream: &EventStream, status: &str) -> (r: Result<BranchMergeIntoResult>)
    ensures
        !stream.ok ==> is_stream_failure(r, *stream, "branch merge_into"@, status@),
        stream.ok ==> merge_into_reported(stream.events@, r),
{
    if let Err(e) = check_stream(stream, "branch merge_into", status) {
        return Err(e);
    }
    if let Some(i) = find_kind(&stream.events, EventKind::BranchMergeIntoRevision) {
        if let LoreEvent::BranchMergeIntoRevision(d) = &stream.events[i] {
            return Ok(BranchMergeIntoResult { revision: d.revision.clone(), revision_number: d.revision_number });
        }
    }
    Err(LoreError::CommandFailed(String::from_str(
        "branch merge_into reported success but emitted no BranchMergeIntoRevision event",
    )))
}

} // verus!
