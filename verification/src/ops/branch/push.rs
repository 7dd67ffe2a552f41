//! `branch push`: pushes a branch and its revisions to the remote.
use vstd::prelude::*;
use crate::error::{LoreError, Result};
use crate::events::{
    check_stream, find_kind, first_of_kind, hash_or_empty, is_stream_failure, shown_hash, EventKind, EventStream,
    LoreEvent,
};
use crate::global::{flag, flag_of};

verus! {

/// Arguments of `branch push`.
#[derive(Debug, Clone)]
pub struct BranchPushArgs {
    /// The branch; empty for the current one.
    pub branch: String,
    /// Fast-forward the remote when it is behind.
    pub fast_forward_merge: bool,
}

/// The engine's arguments of `branch push`.
#[derive(Debug)]
pub struct LoreBranchPushArgs {
    pub branch: String,
    pub fast_forward_merge: u8,
}

impl BranchPushArgs {
    /// The engine's arguments.
    pub fn into_lore(self) -> (r: LoreBranchPushArgs)
        ensures
            r.branch == self.branch,
            r.fast_forward_merge == flag(self.fast_forward_merge),
    {
        LoreBranchPushArgs { branch: self.branch, fast_forward_merge: flag_of(self.fast_forward_merge) }
    }
}

/// What a push did.
#[derive(Debug, Clone)]
pub struct BranchPushResult {
    pub branch_name: String,
    /// The local revision; empty when there is none.
    pub local_revision: String,
    /// The remote revision; empty when there is none.
    pub remote_revision: String,
    pub local_history: u64,
    pub already_pushed: bool,
}

/// The result `branch push` reports: what its first `BranchPush` event says,
/// or a parse error when it reported none.
pub open spec fn push_reported(evs: Seq<LoreEvent>, r: Result<BranchPushResult>) -> bool {
    match first_of_kind(evs, EventKind::BranchPush) {
        Some(i) => evs[i] matches LoreEvent::BranchPush(d) && r matches Ok(res)
            && res.branch_name == d.branch_name && res.local_revision@ == shown_hash(d.local_revision)
            && res.remote_revision@ == shown_hash(d.remote_revision) && res.local_history == d.local_history
            && res.already_pushed == (d.flag_already_pushed != 0),
        None => r matches Err(LoreError::Parse(m))
            && m@ == "branch pushed successfully but no BranchPush event emitted"@,
    }
}

/// The result of `branch push`, read off its event stream.
pub fn push_from_events(stream: &EventStream, status: &str) -> (r: Result<BranchPushResult>)
    ensures
        !stream.ok ==> is_stream_failure(r, *stream, "branch push"@, status@),
        stream.ok ==> push_reported(stream.events@, r),
{
    if let Err(e) = check_stream(stream, "branch push", status) {
        return Err(e);
    }
    if let Some(i) = find_kind(&stream.events, EventKind::BranchPush) {
        if let LoreEvent::BranchPush(d) = &stream.events[i] {
            return Ok(BranchPushResult {
                branch_name: d.branch_name.clone(),
                local_revision: hash_or_empty(&d.local_revision),
                remote_revision: hash_or_empty(&d.remote_revision),
                local_history: d.local_history,
                already_pushed: d.flag_already_pushed != 0,
            });
        }
    }
    Err(LoreError::Parse(String::from_str("branch pushed successfully but no BranchPush event emitted")))
}

} // verus!
