//! `branch info`: describes a branch.
use vstd::prelude::*;
use crate::error::{LoreError, Result};
use crate::events::{check_stream, find_kind, first_of_kind, is_stream_failure, EventKind, EventStream, LoreEvent};

verus! {

/// Arguments of `branch info`.
#[derive(Debug, Clone)]
pub struct BranchInfoArgs {
    /// The branch; empty for the current one.
    pub branch: String,
}

/// The engine's arguments of `branch info`.
#[derive(Debug)]
pub struct LoreBranchInfoArgs {
    pub branch: String,
}

impl BranchInfoArgs {
    /// The engine's arguments.
    pub fn into_lore(self) -> (r: LoreBranchInfoArgs)
        ensures
            r.branch == self.branch,
    {
        LoreBranchInfoArgs { branch: self.branch }
    }
}

/// A branch's description.
#[derive(Debug, Clone)]
pub struct BranchInfoResult {
    pub id: String,
    pub name: String,
    pub category: String,
    pub latest: String,
    pub latest_remote: String,
    pub parent: String,
    pub branch_point: String,
    pub creator: String,
    pub created: u64,
    pub archived: bool,
}

/// The result `branch info` reports: what its first `BranchInfo` event says,
/// or a parse error when it reported none.
pub open spec fn info_reported(evs: Seq<LoreEvent>, r: Result<BranchInfoResult>) -> bool {
    match first_of_kind(evs, EventKind::BranchInfo) {
        Some(i) => evs[i] matches LoreEvent::BranchInfo(d) && r matches Ok(res) && res.id == d.id
            && res.name == d.name && res.category == d.category && res.latest == d.latest
            && res.latest_remote == d.latest_remote && res.parent == d.parent
            && res.branch_point == d.branch_point && res.creator == d.creator
            && res.created == d.created && res.archived == (d.archived != 0),
        None => r matches Err(LoreError::Parse(m)) && m@ == "branch info succeeded but no BranchInfo event emitted"@,
    }
}

/// The result of `branch info`, read off its event stream.
pub fn info_from_events(stream: &EventStream, status: &str) -> (r: Result<BranchInfoResult>)
    ensures
        !stream.ok ==> is_stream_failure(r, *stream, "branch info"@, status@),
        stream.ok ==> info_reported(stream.events@, r),
{
    if let Err(e) = check_stream(stream, "branch info", status) {
        return Err(e);
    }
    if let Some(i) = find_kind(&stream.events, EventKind::BranchInfo) {
        if let LoreEvent::BranchInfo(d) = &stream.events[i] {
            return Ok(BranchInfoResult {
                id: d.id.clone(),
                name: d.name.clone(),
                category: d.category.clone(),
                latest: d.latest.clone(),
                latest_remote: d.latest_remote.clone(),
                parent: d.parent.clone(),
                branch_point: d.branch_point.clone(),
                creator: d.creator.clone(),
                created: d.created,
                archived: d.archived != 0,
            });
        }
    }
    Err(LoreError::Parse(String::from_str("branch info succeeded but no BranchInfo event emitted")))
}

} // verus!
