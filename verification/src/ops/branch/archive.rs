//! `branch archive`: archives a branch.
use vstd::prelude::*;
use crate::error::{LoreError, Result};
use crate::events::{check_stream, find_kind, first_of_kind, is_stream_failure, EventKind, EventStream, LoreEvent};

verus! {

/// Arguments of `branch archive`.
#[derive(Debug, Clone)]
pub struct BranchArchiveArgs {
    /// The branch; empty for the current one.
    pub branch: String,
}

/// The engine's arguments of `branch archive`.
#[derive(Debug)]
pub struct LoreBranchArchiveArgs {
    pub branch: String,
}

impl BranchArchiveArgs {
    /// The engine's arguments.
    pub fn into_lore(self) -> (r: LoreBranchArchiveArgs)
        ensures
            r.branch == self.branch,
    {
        LoreBranchArchiveArgs { branch: self.branch }
    }
}

/// The branch the operation acted on.
#[derive(Debug, Clone)]
pub struct BranchArchiveResult {
    pub branch: String,
}

/// The result `branch archive` reports: the name in its first `BranchArchive`
/// event, or a failure when it reported none.
pub open spec fn archive_reported(evs: Seq<LoreEvent>, r: Result<BranchArchiveResult>) -> bool {
    match first_of_kind(evs, EventKind::BranchArchive) {
        Some(i) => evs[i] matches LoreEvent::BranchArchive(d) && r matches Ok(res) && res.branch == d.name,
        None => r matches Err(LoreError::CommandFailed(m))
            && m@ == "branch archive reported success but emitted no BranchArchive event"@,
    }
}

/// The result of `branch archive`, read off its event stream.
pub fn archive_from_events(stream: &EventStream, status: &str) -> (r: Result<BranchArchiveResult>)
    ensures
        !stream.ok ==> is_stream_failure(r, *stream, "branch archive"@, status@),
        stream.ok ==> archive_reported(stream.events@, r),
{
    if let Err(e) = check_stream(stream, "branch archive", status) {
        return Err(e);
    }
    if let Some(i) = find_kind(&stream.events, EventKind::BranchArchive) {
        if let LoreEvent::BranchArchive(d) = &stream.events[i] {
            return Ok(BranchArchiveResult { branch: d.name.clone() });
        }
    }
    Err(LoreError::CommandFailed(String::from_str("branch archive reported success but emitted no BranchArchive event")))
}

} // verus!
