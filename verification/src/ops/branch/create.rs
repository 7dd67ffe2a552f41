//! `branch create`: creates a branch at the current revision.
use vstd::prelude::*;
use crate::error::{LoreError, Result};
use crate::events::{
    check_stream, find_kind, first_of_kind, hash_or_empty, is_stream_failure, shown_hash, EventKind, EventStream,
    LoreEvent,
};

verus! {

/// Arguments of `branch create`.
#[derive(Debug, Clone)]
pub struct BranchCreateArgs {
    /// The new branch's name.
    pub branch: String,
    /// Its category; empty for none.
    pub category: String,
    /// Its id; empty to let the engine choose one.
    pub id: String,
}

/// The engine's arguments of `branch create`.
#[derive(Debug)]
pub struct LoreBranchCreateArgs {
    pub branch: String,
    pub category: String,
    pub id: String,
}

impl BranchCreateArgs {
    /// The engine's arguments.
    pub fn into_lore(self) -> (r: LoreBranchCreateArgs)
        ensures
            r.branch == self.branch,
            r.category == self.category,
            r.id == self.id,
    {
        LoreBranchCreateArgs { branch: self.branch, category: self.category, id: self.id }
    }
}

/// The branch created.
#[derive(Debug, Clone)]
pub struct BranchCreateResult {
    pub name: String,
    /// Its latest revision; empty when it has none yet.
    pub latest: String,
    pub is_commit: bool,
}

/// The result `branch create` reports: what its first `BranchCreate` event
/// says, or a parse error when it reported none.
pub open spec fn create_reported(evs: Seq<LoreEvent>, r: Result<BranchCreateResult>) -> bool {
    match first_of_kind(evs, EventKind::BranchCreate) {
        Some(i) => evs[i] matches LoreEvent::BranchCreate(d) && r matches Ok(res) && res.name == d.name
            && res.latest@ == shown_hash(d.latest) && res.is_commit == (d.is_commit != 0),
        None => r matches Err(LoreError::Parse(m))
            && m@ == "branch created successfully but no BranchCreate event emitted"@,
    }
}

/// The result of `branch create`, read off its event stream.
pub fn create_from_events(stream: &EventStream, status: &str) -> (r: Result<BranchCreateResult>)
    ensures
        !stream.ok ==> is_stream_failure(r, *stream, "branch create"@, status@),
        stream.ok ==> create_reported(stream.events@, r),
{
    if let Err(e) = check_stream(stream, "branch create", status) {
        return Err(e);
    }
    if let Some(i) = find_kind(&stream.events, EventKind::BranchCreate) {
        if let LoreEvent::BranchCreate(d) = &stream.events[i] {
            return Ok(BranchCreateResult {
                name: d.name.clone(),
                latest: hash_or_empty(&d.latest),
                is_commit: d.is_commit != 0,
            });
        }
    }
    Err(LoreError::Parse(String::from_str("branch created successfully but no BranchCreate event emitted")))
}

} // verus!
