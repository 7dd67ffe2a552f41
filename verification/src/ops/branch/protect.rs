//! `branch protect`: protects a branch against changes.
use vstd::prelude::*;
use crate::error::{LoreError, Result};
use crate::events::{check_stream, find_kind, first_of_kind, is_stream_failure, EventKind, EventStream, LoreEvent};

verus! {

/// Arguments of `branch protect`.
#[derive(Debug, Clone)]
pub struct BranchProtectArgs {
    /// The branch; empty for the current one.
    pub branch: String,
}

/// The engine's arguments of `branch protect`.
#[derive(Debug)]
pub struct LoreBranchProtectArgs {
    pub branch: String,
}

impl BranchProtectArgs {
    /// The engine's arguments.
    pub fn into_lore(self) -> (r: LoreBranchProtectArgs)
        ensures
            r.branch == self.branch,
    {
        LoreBranchProtectArgs { branch: self.branch }
    }
}

/// The branch the operation acted on.
#[derive(Debug, Clone)]
pub struct BranchProtectResult {
    pub branch: String,
}

/// The result `branch protect` reports: the name in its first `BranchProtect`
/// event, or a failure when it reported none.
pub open spec fn protect_reported(evs: Seq<LoreEvent>, r: Result<BranchProtectResult>) -> bool {
    match first_of_kind(evs, EventKind::BranchProtect) {
        Some(i) => evs[i] matches LoreEvent::BranchProtect(d) && r matches Ok(res) && res.branch == d.name,
        None => r matches Err(LoreError::CommandFailed(m))
            && m@ == "branch protect reported success but emitted no BranchProtect event"@,
    }
}

/// The result of `branch protect`, read off its event stream.
pub fn protect_from_events(stream: &EventStream, status: &str) -> (r: Result<BranchProtectResult>)
    ensures
        !stream.ok ==> is_stream_failure(r, *stream, "branch protect"@, status@),
        stream.ok ==> protect_reported(stream.events@, r),
{
    if let Err(e) = check_stream(stream, "branch protect", status) {
        return Err(e);
    }
    if let Some(i) = find_kind(&stream.events, EventKind::BranchProtect) {
        if let LoreEvent::BranchProtect(d) = &stream.events[i] {
            return Ok(BranchProtectResult { branch: d.name.clone() });
        }
    }
    Err(LoreError::CommandFailed(String::from_str("branch protect reported success but emitted no BranchProtect event")))
}

} // verus!
