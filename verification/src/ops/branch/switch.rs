//! `branch switch`: switches the working tree to a branch.
use vstd::prelude::*;
use crate::error::{LoreError, Result};
use crate::events::{check_stream, find_kind, first_of_kind, is_stream_failure, EventKind, EventStream, LoreEvent};
use crate::global::{flag, flag_of};

verus! {

/// Arguments of `branch switch`.
#[derive(Debug, Clone)]
pub struct BranchSwitchArgs {
    /// The branch to switch to.
    pub branch: String,
    /// The revision to switch to; empty for the branch's latest.
    pub revision: String,
    /// Discard local changes.
    pub reset: bool,
    /// Switch without updating the working files.
    pub bare: bool,
}

/// The engine's arguments of `branch switch`.
#[derive(Debug)]
pub struct LoreBranchSwitchArgs {
    pub branch: String,
    pub revision: String,
    pub reset: u8,
    pub bare: u8,
}

impl BranchSwitchArgs {
    /// The engine's arguments.
    pub fn into_lore(self) -> (r: LoreBranchSwitchArgs)
        ensures
            r.branch == self.branch,
            r.revision == self.revision,
            r.reset == flag(self.reset),
            r.bare == flag(self.bare),
    {
        LoreBranchSwitchArgs {
            branch: self.branch,
            revision: self.revision,
            reset: flag_of(self.reset),
            bare: flag_of(self.bare),
        }
    }
}

/// The branch switched to.
#[derive(Debug, Clone)]
pub struct BranchSwitchResult {
    pub branch: String,
}

/// The result `branch switch` reports: the branch named in its first
/// `BranchSwitchEnd` event, or a failure when it reported none.
pub open spec fn switch_reported(evs: Seq<LoreEvent>, r: Result<BranchSwitchResult>) -> bool {
    match first_of_kind(evs, EventKind::BranchSwitchEnd) {
        Some(i) => evs[i] matches LoreEvent::BranchSwitchEnd(d) && r matches Ok(res) && res.branch == d.name,
        None => r matches Err(LoreError::CommandFailed(m))
            && m@ == "branch switch reported success but emitted no BranchSwitchEnd event"@,
    }
}

/// The result of `branch switch`, read off its event stream.
pub fn switch_from_events(stream: &EventStream, status: &str) -> (r: Result<BranchSwitchResult>)
    ensures
        !stream.ok ==> is_stream_failure(r, *stream, "branch switch"@, status@),
        stream.ok ==> switch_reported(stream.events@, r),
{
    if let Err(e) = check_stream(stream, "branch switch", status) {
        return Err(e);
    }
    if let Some(i) = find_kind(&stream.events, EventKind::BranchSwitchEnd) {
        if let LoreEvent::BranchSwitchEnd(d) = &stream.events[i] {
            return Ok(BranchSwitchResult { branch: d.name.clone() });
        }
    }
    Err(LoreError::CommandFailed(String::from_str("branch switch reported success but emitted no BranchSwitchEnd event")))
}

} // verus!
