//! `branch unprotect`: lifts the protection of a branch.
use vstd::prelude::*;
use crate::error::{LoreError, Result};
use crate::events::{check_stream, find_kind, first_of_kind, is_stream_failure, EventKind, EventStream, LoreEvent};

verus! {

/// Arguments of `branch unprotect`.
#[derive(Debug, Clone)]
pub struct BranchUnprotectArgs {
    /// The branch; empty for the current one.
    pub branch: String,
}

/// The engine's arguments of `branch unprotect`.
#[derive(Debug)]
pub struct LoreBranchUnprotectArgs {
    pub branch: String,
}

impl BranchUnprotectArgs {
    /// The engine's arguments.
    pub fn into_lore(self) -> (r: LoreBranchUnprotectArgs)
        ensures
            r.branch == self.branch,
    {
        LoreBranchUnprotectArgs { branch: self.branch }
    }
}

/// The branch the operation acted on.
#[derive(Debug, Clone)]
pub struct BranchUnprotectResult {
    pub branch: String,
}

/// The result `branch unprotect` reports: the name in its first `BranchUnprotect`
/// event, or a failure when it reported none.
pub open spec fn unprotect_reported(evs: Seq<LoreEvent>, r: Result<BranchUnprotectResult>) -> bool {
    match first_of_kind(evs, EventKind::BranchUnprotect) {
        Some(i) => evs[i] matches LoreEvent::BranchUnprotect(d) && r matches Ok(res) && res.branch == d.name,
        None => r matches Err(LoreError::CommandFailed(m))
            && m@ == "branch unprotect reported success but emitted no BranchUnprotect event"@,
    }
}

/// The result of `branch unprotect`, read off its event stream.
pub fn unprotect_from_events(stream: &EventStream, status: &str) -> (r: Result<BranchUnprotectResult>)
    ensures
        !stream.ok ==> is_stream_failure(r, *stream, "branch unprotect"@, status@),
        stream.ok ==> unprotect_reported(stream.events@, r),
{
    if let Err(e) = check_stream(stream, "branch unprotect", status) {
        return Err(e);
    }
    if let Some(i) = find_kind(&stream.events, EventKind::BranchUnprotect) {
        if let LoreEvent::BranchUnprotect(d) = &stream.events[i] {
            return Ok(BranchUnprotectResult { branch: d.name.clone() });
        }
    }
    Err(LoreError::CommandFailed(String::from_str("branch unprotect reported success but emitted no BranchUnprotect event")))
}

} // verus!
