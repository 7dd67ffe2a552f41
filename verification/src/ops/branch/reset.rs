//! `branch reset`: moves a branch to a revision.
use vstd::prelude::*;
use crate::error::{LoreError, Result};
use crate::events::{check_stream, find_kind, first_of_kind, is_stream_failure, EventKind, EventStream, LoreEvent};

verus! {

/// Arguments of `branch reset`.
#[derive(Debug, Clone)]
pub struct BranchResetArgs {
    /// The revision to move the branch to.
    pub revision: String,
    /// The branch; empty for the current one.
    pub branch: String,
}

/// The engine's arguments of `branch reset`.
#[derive(Debug)]
pub struct LoreBranchResetArgs {
    pub revision: String,
    pub branch: String,
}

impl BranchResetArgs {
    /// The engine's arguments.
    pub fn into_lore(self) -> (r: LoreBranchResetArgs)
        ensures
            r.revision == self.revision,
            r.branch == self.branch,
    {
        LoreBranchResetArgs { revision: self.revision, branch: self.branch }
    }
}

/// The branch reset and the revision it now points at.
#[derive(Debug, Clone)]
pub struct BranchResetResult {
    pub branch: String,
    pub revision: String,
}

/// The result `branch reset` reports: what its first `BranchReset` event
/// says, or a failure when it reported none.
pub open spec fn reset_reported(evs: Seq<LoreEvent>, r: Result<BranchResetResult>) -> bool {
    match first_of_kind(evs, EventKind::BranchReset) {
        Some(i) => evs[i] matches LoreEvent::BranchReset(d) && r matches Ok(res) && res.branch == d.name
            && res.revision == d.revision,
        None => r matches Err(LoreError::CommandFailed(m))
            && m@ == "branch reset reported success but emitted no BranchReset event"@,
    }
}

/// The result of `branch reset`, read off its event stream.
pub fn reset_from_events(stream: &EventStream, status: &str) -> (r: Result<BranchResetResult>)
    ensures
        !stream.ok ==> is_stream_failure(r, *stream, "branch reset"@, status@),
        stream.ok ==> reset_reported(stream.events@, r),
{
    if let Err(e) = check_stream(stream, "branch reset", status) {
        return Err(e);
    }
    if let Some(i) = find_kind(&stream.events, EventKind::BranchReset) {
        if let LoreEvent::BranchReset(d) = &stream.events[i] {
            return Ok(BranchResetResult { branch: d.name.clone(), revision: d.revision.clone() });
        }
    }
    Err(LoreError::CommandFailed(String::from_str("branch reset reported success but emitted no BranchReset event")))
}

} // verus!
