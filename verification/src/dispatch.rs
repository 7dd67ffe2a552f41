//! The canonical operation routing table: the `"<domain>.<op>"` ids the
//! dispatcher understands, which of them mutate durable state, and how a
//! flush failure after an operation is classified.
//!
//! The transport (decoding arguments, awaiting the operation, encoding its
//! result) belongs to the driver; which operation an id names, and the errors
//! the dispatcher answers with, are decided here.
use vstd::prelude::*;
use crate::error::{LoreError, prefixed};
use crate::text::{chars_of, contains, is_text, spec_contains};

verus! {

broadcast use vstd::string::group_string_axioms;

/// An operation the dispatcher can route.
#[derive(Debug, Clone, Copy, PartialEq, Eq, Structural)]
pub enum OpId {
    /// `repository.status`
    RepositoryStatus,
    /// `repository.info`
    RepositoryInfo,
    /// `repository.list`
    RepositoryList,
    /// `repository.create`
    RepositoryCreate,
    /// `repository.clone`
    RepositoryClone,
    /// `revision.history`
    RevisionHistory,
    /// `revision.diff`
    RevisionDiff,
    /// `revision.info`
    RevisionInfo,
    /// `revision.find`
    RevisionFind,
    /// `revision.commit`
    RevisionCommit,
    /// `revision.sync`
    RevisionSync,
    /// `branch.list`
    BranchList,
    /// `branch.info`
    BranchInfo,
    /// `branch.create`
    BranchCreate,
    /// `branch.switch`
    BranchSwitch,
    /// `branch.push`
    BranchPush,
    /// `auth.login_with_token`
    AuthLoginWithToken,
    /// `file.stage`
    FileStage,
    /// `file.unstage`
    FileUnstage,
    /// `file.info`
    FileInfo,
    /// `file.history`
    FileHistory,
    /// `file.diff`
    FileDiff,
    /// `lock.file_query`
    LockFileQuery,
    /// `lock.file_status`
    LockFileStatus,
    /// `lock.file_acquire`
    LockFileAcquire,
    /// `lock.file_acquire_as_owner`
    LockFileAcquireAsOwner,
    /// `lock.file_message_send`
    LockFileMessageSend,
    /// `lock.file_release`
    LockFileRelease,
}

/// The id of an operation.
pub open spec fn op_name(op: OpId) -> Seq<char> {
    match op {
        OpId::RepositoryStatus => "repository.status"@,
        OpId::RepositoryInfo => "repository.info"@,
        OpId::RepositoryList => "repository.list"@,
        OpId::RepositoryCreate => "repository.create"@,
        OpId::RepositoryClone => "repository.clone"@,
        OpId::RevisionHistory => "revision.history"@,
        OpId::RevisionDiff => "revision.diff"@,
        OpId::RevisionInfo => "revision.info"@,
        OpId::RevisionFind => "revision.find"@,
        OpId::RevisionCommit => "revision.commit"@,
        OpId::RevisionSync => "revision.sync"@,
        OpId::BranchList => "branch.list"@,
        OpId::BranchInfo => "branch.info"@,
        OpId::BranchCreate => "branch.create"@,
        OpId::BranchSwitch => "branch.switch"@,
        OpId::BranchPush => "branch.push"@,
        OpId::AuthLoginWithToken => "auth.login_with_token"@,
        OpId::FileStage => "file.stage"@,
        OpId::FileUnstage => "file.unstage"@,
        OpId::FileInfo => "file.info"@,
        OpId::FileHistory => "file.history"@,
        OpId::FileDiff => "file.diff"@,
        OpId::LockFileQuery => "lock.file_query"@,
        OpId::LockFileStatus => "lock.file_status"@,
        OpId::LockFileAcquire => "lock.file_acquire"@,
        OpId::LockFileAcquireAsOwner => "lock.file_acquire_as_owner"@,
        OpId::LockFileMessageSend => "lock.file_message_send"@,
        OpId::LockFileRelease => "lock.file_release"@,
    }
}

/// The operation at position `i` of the supported list.
pub open spec fn op_at(i: int) -> OpId {
    if i == 0 {
        OpId::RepositoryStatus
    } else if i == 1 {
        OpId::RepositoryInfo
    } else if i == 2 {
        OpId::RepositoryList
    } else if i == 3 {
        OpId::RepositoryCreate
    } else if i == 4 {
        OpId::RepositoryClone
    } else if i == 5 {
        OpId::RevisionHistory
    } else if i == 6 {
        OpId::RevisionDiff
    } else if i == 7 {
        OpId::RevisionInfo
    } else if i == 8 {
        OpId::RevisionFind
    } else if i == 9 {
        OpId::RevisionCommit
    } else if i == 10 {
        OpId::RevisionSync
    } else if i == 11 {
        OpId::BranchList
    } else if i == 12 {
        OpId::BranchInfo
    } else if i == 13 {
        OpId::BranchCreate
    } else if i == 14 {
        OpId::BranchSwitch
    } else if i == 15 {
        OpId::BranchPush
    } else if i == 16 {
        OpId::AuthLoginWithToken
    } else if i == 17 {
        OpId::FileStage
    } else if i == 18 {
        OpId::FileUnstage
    } else if i == 19 {
        OpId::FileInfo
    } else if i == 20 {
        OpId::FileHistory
    } else if i == 21 {
        OpId::FileDiff
    } else if i == 22 {
        OpId::LockFileQuery
    } else if i == 23 {
        OpId::LockFileStatus
    } else if i == 24 {
        OpId::LockFileAcquire
    } else if i == 25 {
        OpId::LockFileAcquireAsOwner
    } else if i == 26 {
        OpId::LockFileMessageSend
    } else {
        OpId::LockFileRelease
    }
}

/// The number of supported operations.
pub open spec fn op_count() -> int {
    28
}

/// The position of an operation in the supported list.
pub open spec fn op_position(op: OpId) -> int {
    match op {
        OpId::RepositoryStatus => 0,
        OpId::RepositoryInfo => 1,
        OpId::RepositoryList => 2,
        OpId::RepositoryCreate => 3,
        OpId::RepositoryClone => 4,
        OpId::RevisionHistory => 5,
        OpId::RevisionDiff => 6,
        OpId::RevisionInfo => 7,
        OpId::RevisionFind => 8,
        OpId::RevisionCommit => 9,
        OpId::RevisionSync => 10,
        OpId::BranchList => 11,
        OpId::BranchInfo => 12,
        OpId::BranchCreate => 13,
        OpId::BranchSwitch => 14,
        OpId::BranchPush => 15,
        OpId::AuthLoginWithToken => 16,
        OpId::FileStage => 17,
        OpId::FileUnstage => 18,
        OpId::FileInfo => 19,
        OpId::FileHistory => 20,
        OpId::FileDiff => 21,
        OpId::LockFileQuery => 22,
        OpId::LockFileStatus => 23,
        OpId::LockFileAcquire => 24,
        OpId::LockFileAcquireAsOwner => 25,
        OpId::LockFileMessageSend => 26,
        OpId::LockFileRelease => 27,
    }
}

/// The ids of every supported operation, in their stable order.
pub open spec fn supported_names() -> Seq<Seq<char>> {
    Seq::new(op_count() as nat, |i: int| op_name(op_at(i)))
}

/// True when the operation mutates durable on-disk state, so that a failed
/// flush after it may mean a lost write.
pub open spec fn mutates(op: OpId) -> bool {
    match op {
        OpId::RepositoryCreate | OpId::RepositoryClone | OpId::RevisionCommit | OpId::RevisionSync | OpId::BranchCreate | OpId::BranchSwitch | OpId::BranchPush | OpId::AuthLoginWithToken | OpId::FileStage | OpId::FileUnstage | OpId::LockFileAcquire | OpId::LockFileAcquireAsOwner | OpId::LockFileMessageSend | OpId::LockFileRelease => true,
        _ => false,
    }
}

/// Distinct operations have distinct ids.
pub proof fn lemma_op_names_distinct(a: OpId, b: OpId)
    ensures
        op_name(a) == op_name(b) ==> a == b,
{
    reveal_strlit("auth.login_with_token");
    reveal_strlit("branch.create");
    reveal_strlit("branch.info");
    reveal_strlit("branch.list");
    reveal_strlit("branch.push");
    reveal_strlit("branch.switch");
    reveal_strlit("file.diff");
    reveal_strlit("file.history");
    reveal_strlit("file.info");
    reveal_strlit("file.stage");
    reveal_strlit("file.unstage");
    reveal_strlit("lock.file_acquire");
    reveal_strlit("lock.file_acquire_as_owner");
    reveal_strlit("lock.file_message_send");
    reveal_strlit("lock.file_query");
    reveal_strlit("lock.file_release");
    reveal_strlit("lock.file_status");
    reveal_strlit("repository.clone");
    reveal_strlit("repository.create");
    reveal_strlit("repository.info");
    reveal_strlit("repository.list");
    reveal_strlit("repository.status");
    reveal_strlit("revision.commit");
    reveal_strlit("revision.diff");
    reveal_strlit("revision.find");
    reveal_strlit("revision.history");
    reveal_strlit("revision.info");
    reveal_strlit("revision.sync");
    if a != b && op_name(a) == op_name(b) {
        match (a, b) {
            (OpId::RepositoryStatus, OpId::RepositoryCreate) => assert(op_name(a)[11] != op_name(b)[11]),
            (OpId::RepositoryStatus, OpId::LockFileAcquire) => assert(op_name(a)[0] != op_name(b)[0]),
            (OpId::RepositoryStatus, OpId::LockFileRelease) => assert(op_name(a)[0] != op_name(b)[0]),
            (OpId::RepositoryInfo, OpId::RepositoryList) => assert(op_name(a)[11] != op_name(b)[11]),
            (OpId::RepositoryInfo, OpId::RevisionCommit) => assert(op_name(a)[2] != op_name(b)[2]),
            (OpId::RepositoryInfo, OpId::LockFileQuery) => assert(op_name(a)[0] != op_name(b)[0]),
            (OpId::RepositoryList, OpId::RepositoryInfo) => assert(op_name(a)[11] != op_name(b)[11]),
            (OpId::RepositoryList, OpId::RevisionCommit) => assert(op_name(a)[2] != op_name(b)[2]),
            (OpId::RepositoryList, OpId::LockFileQuery) => assert(op_name(a)[0] != op_name(b)[0]),
            (OpId::RepositoryCreate, OpId::RepositoryStatus) => assert(op_name(a)[11] != op_name(b)[11]),
            (OpId::RepositoryCreate, OpId::LockFileAcquire) => assert(op_name(a)[0] != op_name(b)[0]),
            (OpId::RepositoryCreate, OpId::LockFileRelease) => assert(op_name(a)[0] != op_name(b)[0]),
            (OpId::RepositoryClone, OpId::RevisionHistory) => assert(op_name(a)[2] != op_name(b)[2]),
            (OpId::RepositoryClone, OpId::LockFileStatus) => assert(op_name(a)[0] != op_name(b)[0]),
            (OpId::RevisionHistory, OpId::RepositoryClone) => assert(op_name(a)[2] != op_name(b)[2]),
            (OpId::RevisionHistory, OpId::LockFileStatus) => assert(op_name(a)[0] != op_name(b)[0]),
            (OpId::RevisionDiff, OpId::RevisionInfo) => assert(op_name(a)[9] != op_name(b)[9]),
            (OpId::RevisionDiff, OpId::RevisionFind) => assert(op_name(a)[9] != op_name(b)[9]),
            (OpId::RevisionDiff, OpId::RevisionSync) => assert(op_name(a)[9] != op_name(b)[9]),
            (OpId::RevisionDiff, OpId::BranchCreate) => assert(op_name(a)[0] != op_name(b)[0]),
            (OpId::RevisionDiff, OpId::BranchSwitch) => assert(op_name(a)[0] != op_name(b)[0]),
            (OpId::RevisionInfo, OpId::RevisionDiff) => assert(op_name(a)[9] != op_name(b)[9]),
            (OpId::RevisionInfo, OpId::RevisionFind) => assert(op_name(a)[9] != op_name(b)[9]),
            (OpId::RevisionInfo, OpId::RevisionSync) => assert(op_name(a)[9] != op_name(b)[9]),
            (OpId::RevisionInfo, OpId::BranchCreate) => assert(op_name(a)[0] != op_name(b)[0]),
            (OpId::RevisionInfo, OpId::BranchSwitch) => assert(op_name(a)[0] != op_name(b)[0]),
            (OpId::RevisionFind, OpId::RevisionDiff) => assert(op_name(a)[9] != op_name(b)[9]),
            (OpId::RevisionFind, OpId::RevisionInfo) => assert(op_name(a)[9] != op_name(b)[9]),
            (OpId::RevisionFind, OpId::RevisionSync) => assert(op_name(a)[9] != op_name(b)[9]),
            (OpId::RevisionFind, OpId::BranchCreate) => assert(op_name(a)[0] != op_name(b)[0]),
            (OpId::RevisionFind, OpId::BranchSwitch) => assert(op_name(a)[0] != op_name(b)[0]),
            (OpId::RevisionCommit, OpId::RepositoryInfo) => assert(op_name(a)[2] != op_name(b)[2]),
            (OpId::RevisionCommit, OpId::RepositoryList) => assert(op_name(a)[2] != op_name(b)[2]),
            (OpId::RevisionCommit, OpId::LockFileQuery) => assert(op_name(a)[0] != op_name(b)[0]),
            (OpId::RevisionSync, OpId::RevisionDiff) => assert(op_name(a)[9] != op_name(b)[9]),
            (OpId::RevisionSync, OpId::RevisionInfo) => assert(op_name(a)[9] != op_name(b)[9]),
            (OpId::RevisionSync, OpId::RevisionFind) => assert(op_name(a)[9] != op_name(b)[9]),
            (OpId::RevisionSync, OpId::BranchCreate) => assert(op_name(a)[0] != op_name(b)[0]),
            (OpId::RevisionSync, OpId::BranchSwitch) => assert(op_name(a)[0] != op_name(b)[0]),
            (OpId::BranchList, OpId::BranchInfo) => assert(op_name(a)[7] != op_name(b)[7]),
            (OpId::BranchList, OpId::BranchPush) => assert(op_name(a)[7] != op_name(b)[7]),
            (OpId::BranchInfo, OpId::BranchList) => assert(op_name(a)[7] != op_name(b)[7]),
            (OpId::BranchInfo, OpId::BranchPush) => assert(op_name(a)[7] != op_name(b)[7]),
            (OpId::BranchCreate, OpId::RevisionDiff) => assert(op_name(a)[0] != op_name(b)[0]),
            (OpId::BranchCreate, OpId::RevisionInfo) => assert(op_name(a)[0] != op_name(b)[0]),
            (OpId::BranchCreate, OpId::RevisionFind) => assert(op_name(a)[0] != op_name(b)[0]),
            (OpId::BranchCreate, OpId::RevisionSync) => assert(op_name(a)[0] != op_name(b)[0]),
            (OpId::BranchCreate, OpId::BranchSwitch) => assert(op_name(a)[7] != op_name(b)[7]),
            (OpId::BranchSwitch, OpId::RevisionDiff) => assert(op_name(a)[0] != op_name(b)[0]),
            (OpId::BranchSwitch, OpId::RevisionInfo) => assert(op_name(a)[0] != op_name(b)[0]),
            (OpId::BranchSwitch, OpId::RevisionFind) => assert(op_name(a)[0] != op_name(b)[0]),
            (OpId::BranchSwitch, OpId::RevisionSync) => assert(op_name(a)[0] != op_name(b)[0]),
            (OpId::BranchSwitch, OpId::BranchCreate) => assert(op_name(a)[7] != op_name(b)[7]),
            (OpId::BranchPush, OpId::BranchList) => assert(op_name(a)[7] != op_name(b)[7]),
            (OpId::BranchPush, OpId::BranchInfo) => assert(op_name(a)[7] != op_name(b)[7]),
            (OpId::FileUnstage, OpId::FileHistory) => assert(op_name(a)[5] != op_name(b)[5]),
            (OpId::FileInfo, OpId::FileDiff) => assert(op_name(a)[5] != op_name(b)[5]),
            (OpId::FileHistory, OpId::FileUnstage) => assert(op_name(a)[5] != op_name(b)[5]),
            (OpId::FileDiff, OpId::FileInfo) => assert(op_name(a)[5] != op_name(b)[5]),
            (OpId::LockFileQuery, OpId::RepositoryInfo) => assert(op_name(a)[0] != op_name(b)[0]),
            (OpId::LockFileQuery, OpId::RepositoryList) => assert(op_name(a)[0] != op_name(b)[0]),
            (OpId::LockFileQuery, OpId::RevisionCommit) => assert(op_name(a)[0] != op_name(b)[0]),
            (OpId::LockFileStatus, OpId::RepositoryClone) => assert(op_name(a)[0] != op_name(b)[0]),
            (OpId::LockFileStatus, OpId::RevisionHistory) => assert(op_name(a)[0] != op_name(b)[0]),
            (OpId::LockFileAcquire, OpId::RepositoryStatus) => assert(op_name(a)[0] != op_name(b)[0]),
            (OpId::LockFileAcquire, OpId::RepositoryCreate) => assert(op_name(a)[0] != op_name(b)[0]),
            (OpId::LockFileAcquire, OpId::LockFileRelease) => assert(op_name(a)[10] != op_name(b)[10]),
            (OpId::LockFileRelease, OpId::RepositoryStatus) => assert(op_name(a)[0] != op_name(b)[0]),
            (OpId::LockFileRelease, OpId::RepositoryCreate) => assert(op_name(a)[0] != op_name(b)[0]),
            (OpId::LockFileRelease, OpId::LockFileAcquire) => assert(op_name(a)[10] != op_name(b)[10]),
            _ => assert(op_name(a).len() != op_name(b).len()),
        }
    }
}

/// The positions of the supported list name each operation once.
pub proof fn lemma_op_positions(op: OpId)
    ensures
        0 <= op_position(op) < op_count(),
        op_at(op_position(op)) == op,
{
}

/// Position `i` of the supported list holds the operation at that position.
pub proof fn lemma_op_at(i: int)
    requires
        0 <= i < op_count(),
    ensures
        op_position(op_at(i)) == i,
{
}

/// The supported list holds no id twice.
pub proof fn lemma_supported_ops_distinct()
    ensures
        supported_names().no_duplicates(),
        supported_names().len() == op_count(),
{
    assert forall|i: int, j: int|
        0 <= i < supported_names().len() && 0 <= j < supported_names().len() && i != j implies
        supported_names()[i] != supported_names()[j] by {
        lemma_op_at(i);
        lemma_op_at(j);
        lemma_op_names_distinct(op_at(i), op_at(j));
    }
}

/// Every operation's id is in the supported list, at its position.
pub proof fn lemma_every_op_is_supported(op: OpId)
    ensures
        supported_names()[op_position(op)] == op_name(op),
        supported_names().contains(op_name(op)),
{
    lemma_op_positions(op);
    let i = op_position(op);
    assert(0 <= i < supported_names().len());
    assert(supported_names()[i] == op_name(op_at(i)));
}

/// Every operation that mutates durable state is a supported operation.
pub proof fn lemma_mutating_ops_are_supported(op: OpId)
    requires
        mutates(op),
    ensures
        supported_names().contains(op_name(op)),
{
    lemma_every_op_is_supported(op);
}

/// True when `s` is the id of a supported operation.
pub open spec fn is_supported(s: Seq<char>) -> bool {
    exists|op: OpId| op_name(op) == s
}

/// True when `s` is the id of an operation that mutates durable state.
pub open spec fn is_mutating_name(s: Seq<char>) -> bool {
    exists|op: OpId| mutates(op) && op_name(op) == s
}

/// Every op id the dispatcher understands, in a stable, human-scannable order.
pub fn supported_ops() -> (r: &'static [&'static str])
    ensures
        r@.len() == op_count(),
        forall|i: int| 0 <= i < r@.len() ==> (#[trigger] r@[i])@ == supported_names()[i],
{
    let r: &'static [&'static str] = &[
        "repository.status",
        "repository.info",
        "repository.list",
        "repository.create",
        "repository.clone",
        "revision.history",
        "revision.diff",
        "revision.info",
        "revision.find",
        "revision.commit",
        "revision.sync",
        "branch.list",
        "branch.info",
        "branch.create",
        "branch.switch",
        "branch.push",
        "auth.login_with_token",
        "file.stage",
        "file.unstage",
        "file.info",
        "file.history",
        "file.diff",
        "lock.file_query",
        "lock.file_status",
        "lock.file_acquire",
        "lock.file_acquire_as_owner",
        "lock.file_message_send",
        "lock.file_release",
    ];
    r
}

impl OpId {
    /// The id of this operation.
    pub fn name(&self) -> (r: &'static str)
        ensures
            r@ == op_name(*self),
    {
        match self {
            OpId::RepositoryStatus => "repository.status",
            OpId::RepositoryInfo => "repository.info",
            OpId::RepositoryList => "repository.list",
            OpId::RepositoryCreate => "repository.create",
            OpId::RepositoryClone => "repository.clone",
            OpId::RevisionHistory => "revision.history",
            OpId::RevisionDiff => "revision.diff",
            OpId::RevisionInfo => "revision.info",
            OpId::RevisionFind => "revision.find",
            OpId::RevisionCommit => "revision.commit",
            OpId::RevisionSync => "revision.sync",
            OpId::BranchList => "branch.list",
            OpId::BranchInfo => "branch.info",
            OpId::BranchCreate => "branch.create",
            OpId::BranchSwitch => "branch.switch",
            OpId::BranchPush => "branch.push",
            OpId::AuthLoginWithToken => "auth.login_with_token",
            OpId::FileStage => "file.stage",
            OpId::FileUnstage => "file.unstage",
            OpId::FileInfo => "file.info",
            OpId::FileHistory => "file.history",
            OpId::FileDiff => "file.diff",
            OpId::LockFileQuery => "lock.file_query",
            OpId::LockFileStatus => "lock.file_status",
            OpId::LockFileAcquire => "lock.file_acquire",
            OpId::LockFileAcquireAsOwner => "lock.file_acquire_as_owner",
            OpId::LockFileMessageSend => "lock.file_message_send",
            OpId::LockFileRelease => "lock.file_release",
        }
    }

    /// True when this operation mutates durable on-disk state.
    pub fn is_mutating(&self) -> (r: bool)
        ensures
            r == mutates(*self),
    {
        match self {
            OpId::RepositoryCreate | OpId::RepositoryClone | OpId::RevisionCommit | OpId::RevisionSync | OpId::BranchCreate | OpId::BranchSwitch | OpId::BranchPush | OpId::AuthLoginWithToken | OpId::FileStage | OpId::FileUnstage | OpId::LockFileAcquire | OpId::LockFileAcquireAsOwner | OpId::LockFileMessageSend | OpId::LockFileRelease => true,
            _ => false,
        }
    }
}

/// The operation `op_id` names, if any.
pub fn route(op_id: &str) -> (r: Option<OpId>)
    ensures
        forall|op: OpId| r == Some(op) <==> op_id@ == op_name(op),
        r is None <==> !is_supported(op_id@),
{
    let v = chars_of(op_id);
    if is_text(&v, "repository.status") {
        proof {
            assert(op_name(OpId::RepositoryStatus) == op_id@);
            assert forall|op: OpId| op_id@ == op_name(op) implies op == OpId::RepositoryStatus by {
                lemma_op_names_distinct(op, OpId::RepositoryStatus);
            }
        }
        return Some(OpId::RepositoryStatus);
    }
    if is_text(&v, "repository.info") {
        proof {
            assert(op_name(OpId::RepositoryInfo) == op_id@);
            assert forall|op: OpId| op_id@ == op_name(op) implies op == OpId::RepositoryInfo by {
                lemma_op_names_distinct(op, OpId::RepositoryInfo);
            }
        }
        return Some(OpId::RepositoryInfo);
    }
    if is_text(&v, "repository.list") {
        proof {
            assert(op_name(OpId::RepositoryList) == op_id@);
            assert forall|op: OpId| op_id@ == op_name(op) implies op == OpId::RepositoryList by {
                lemma_op_names_distinct(op, OpId::RepositoryList);
            }
        }
        return Some(OpId::RepositoryList);
    }
    if is_text(&v, "repository.create") {
        proof {
            assert(op_name(OpId::RepositoryCreate) == op_id@);
            assert forall|op: OpId| op_id@ == op_name(op) implies op == OpId::RepositoryCreate by {
                lemma_op_names_distinct(op, OpId::RepositoryCreate);
            }
        }
        return Some(OpId::RepositoryCreate);
    }
    if is_text(&v, "repository.clone") {
        proof {
            assert(op_name(OpId::RepositoryClone) == op_id@);
            assert forall|op: OpId| op_id@ == op_name(op) implies op == OpId::RepositoryClone by {
                lemma_op_names_distinct(op, OpId::RepositoryClone);
            }
        }
        return Some(OpId::RepositoryClone);
    }
    if is_text(&v, "revision.history") {
        proof {
            assert(op_name(OpId::RevisionHistory) == op_id@);
            assert forall|op: OpId| op_id@ == op_name(op) implies op == OpId::RevisionHistory by {
                lemma_op_names_distinct(op, OpId::RevisionHistory);
            }
        }
        return Some(OpId::RevisionHistory);
    }
    if is_text(&v, "revision.diff") {
        proof {
            assert(op_name(OpId::RevisionDiff) == op_id@);
            assert forall|op: OpId| op_id@ == op_name(op) implies op == OpId::RevisionDiff by {
                lemma_op_names_distinct(op, OpId::RevisionDiff);
            }
        }
        return Some(OpId::RevisionDiff);
    }
    if is_text(&v, "revision.info") {
        proof {
            assert(op_name(OpId::RevisionInfo) == op_id@);
            assert forall|op: OpId| op_id@ == op_name(op) implies op == OpId::RevisionInfo by {
                lemma_op_names_distinct(op, OpId::RevisionInfo);
            }
        }
        return Some(OpId::RevisionInfo);
    }
    if is_text(&v, "revision.find") {
        proof {
            assert(op_name(OpId::RevisionFind) == op_id@);
            assert forall|op: OpId| op_id@ == op_name(op) implies op == OpId::RevisionFind by {
                lemma_op_names_distinct(op, OpId::RevisionFind);
            }
        }
        return Some(OpId::RevisionFind);
    }
    if is_text(&v, "revision.commit") {
        proof {
            assert(op_name(OpId::RevisionCommit) == op_id@);
            assert forall|op: OpId| op_id@ == op_name(op) implies op == OpId::RevisionCommit by {
                lemma_op_names_distinct(op, OpId::RevisionCommit);
            }
        }
        return Some(OpId::RevisionCommit);
    }
    if is_text(&v, "revision.sync") {
        proof {
            assert(op_name(OpId::RevisionSync) == op_id@);
            assert forall|op: OpId| op_id@ == op_name(op) implies op == OpId::RevisionSync by {
                lemma_op_names_distinct(op, OpId::RevisionSync);
            }
        }
        return Some(OpId::RevisionSync);
    }
    if is_text(&v, "branch.list") {
        proof {
            assert(op_name(OpId::BranchList) == op_id@);
            assert forall|op: OpId| op_id@ == op_name(op) implies op == OpId::BranchList by {
                lemma_op_names_distinct(op, OpId::BranchList);
            }
        }
        return Some(OpId::BranchList);
    }
    if is_text(&v, "branch.info") {
        proof {
            assert(op_name(OpId::BranchInfo) == op_id@);
            assert forall|op: OpId| op_id@ == op_name(op) implies op == OpId::BranchInfo by {
                lemma_op_names_distinct(op, OpId::BranchInfo);
            }
        }
        return Some(OpId::BranchInfo);
    }
    if is_text(&v, "branch.create") {
        proof {
            assert(op_name(OpId::BranchCreate) == op_id@);
            assert forall|op: OpId| op_id@ == op_name(op) implies op == OpId::BranchCreate by {
                lemma_op_names_distinct(op, OpId::BranchCreate);
            }
        }
        return Some(OpId::BranchCreate);
    }
    if is_text(&v, "branch.switch") {
        proof {
            assert(op_name(OpId::BranchSwitch) == op_id@);
            assert forall|op: OpId| op_id@ == op_name(op) implies op == OpId::BranchSwitch by {
                lemma_op_names_distinct(op, OpId::BranchSwitch);
            }
        }
        return Some(OpId::BranchSwitch);
    }
    if is_text(&v, "branch.push") {
        proof {
            assert(op_name(OpId::BranchPush) == op_id@);
            assert forall|op: OpId| op_id@ == op_name(op) implies op == OpId::BranchPush by {
                lemma_op_names_distinct(op, OpId::BranchPush);
            }
        }
        return Some(OpId::BranchPush);
    }
    if is_text(&v, "auth.login_with_token") {
        proof {
            assert(op_name(OpId::AuthLoginWithToken) == op_id@);
            assert forall|op: OpId| op_id@ == op_name(op) implies op == OpId::AuthLoginWithToken by {
                lemma_op_names_distinct(op, OpId::AuthLoginWithToken);
            }
        }
        return Some(OpId::AuthLoginWithToken);
    }
    if is_text(&v, "file.stage") {
        proof {
            assert(op_name(OpId::FileStage) == op_id@);
            assert forall|op: OpId| op_id@ == op_name(op) implies op == OpId::FileStage by {
                lemma_op_names_distinct(op, OpId::FileStage);
            }
        }
        return Some(OpId::FileStage);
    }
    if is_text(&v, "file.unstage") {
        proof {
            assert(op_name(OpId::FileUnstage) == op_id@);
            assert forall|op: OpId| op_id@ == op_name(op) implies op == OpId::FileUnstage by {
                lemma_op_names_distinct(op, OpId::FileUnstage);
            }
        }
        return Some(OpId::FileUnstage);
    }
    if is_text(&v, "file.info") {
        proof {
            assert(op_name(OpId::FileInfo) == op_id@);
            assert forall|op: OpId| op_id@ == op_name(op) implies op == OpId::FileInfo by {
                lemma_op_names_distinct(op, OpId::FileInfo);
            }
        }
        return Some(OpId::FileInfo);
    }
    if is_text(&v, "file.history") {
        proof {
            assert(op_name(OpId::FileHistory) == op_id@);
            assert forall|op: OpId| op_id@ == op_name(op) implies op == OpId::FileHistory by {
                lemma_op_names_distinct(op, OpId::FileHistory);
            }
        }
        return Some(OpId::FileHistory);
    }
    if is_text(&v, "file.diff") {
        proof {
            assert(op_name(OpId::FileDiff) == op_id@);
            assert forall|op: OpId| op_id@ == op_name(op) implies op == OpId::FileDiff by {
                lemma_op_names_distinct(op, OpId::FileDiff);
            }
        }
        return Some(OpId::FileDiff);
    }
    if is_text(&v, "lock.file_query") {
        proof {
            assert(op_name(OpId::LockFileQuery) == op_id@);
            assert forall|op: OpId| op_id@ == op_name(op) implies op == OpId::LockFileQuery by {
                lemma_op_names_distinct(op, OpId::LockFileQuery);
            }
        }
        return Some(OpId::LockFileQuery);
    }
    if is_text(&v, "lock.file_status") {
        proof {
            assert(op_name(OpId::LockFileStatus) == op_id@);
            assert forall|op: OpId| op_id@ == op_name(op) implies op == OpId::LockFileStatus by {
                lemma_op_names_distinct(op, OpId::LockFileStatus);
            }
        }
        return Some(OpId::LockFileStatus);
    }
    if is_text(&v, "lock.file_acquire") {
        proof {
            assert(op_name(OpId::LockFileAcquire) == op_id@);
            assert forall|op: OpId| op_id@ == op_name(op) implies op == OpId::LockFileAcquire by {
                lemma_op_names_distinct(op, OpId::LockFileAcquire);
            }
        }
        return Some(OpId::LockFileAcquire);
    }
    if is_text(&v, "lock.file_acquire_as_owner") {
        proof {
            assert(op_name(OpId::LockFileAcquireAsOwner) == op_id@);
            assert forall|op: OpId| op_id@ == op_name(op) implies op == OpId::LockFileAcquireAsOwner by {
                lemma_op_names_distinct(op, OpId::LockFileAcquireAsOwner);
            }
        }
        return Some(OpId::LockFileAcquireAsOwner);
    }
    if is_text(&v, "lock.file_message_send") {
        proof {
            assert(op_name(OpId::LockFileMessageSend) == op_id@);
            assert forall|op: OpId| op_id@ == op_name(op) implies op == OpId::LockFileMessageSend by {
                lemma_op_names_distinct(op, OpId::LockFileMessageSend);
            }
        }
        return Some(OpId::LockFileMessageSend);
    }
    if is_text(&v, "lock.file_release") {
        proof {
            assert(op_name(OpId::LockFileRelease) == op_id@);
            assert forall|op: OpId| op_id@ == op_name(op) implies op == OpId::LockFileRelease by {
                lemma_op_names_distinct(op, OpId::LockFileRelease);
            }
        }
        return Some(OpId::LockFileRelease);
    }
    proof {
        assert forall|op: OpId| op_id@ != op_name(op) by {
            match op {
                OpId::RepositoryStatus => {},
                OpId::RepositoryInfo => {},
                OpId::RepositoryList => {},
                OpId::RepositoryCreate => {},
                OpId::RepositoryClone => {},
                OpId::RevisionHistory => {},
                OpId::RevisionDiff => {},
                OpId::RevisionInfo => {},
                OpId::RevisionFind => {},
                OpId::RevisionCommit => {},
                OpId::RevisionSync => {},
                OpId::BranchList => {},
                OpId::BranchInfo => {},
                OpId::BranchCreate => {},
                OpId::BranchSwitch => {},
                OpId::BranchPush => {},
                OpId::AuthLoginWithToken => {},
                OpId::FileStage => {},
                OpId::FileUnstage => {},
                OpId::FileInfo => {},
                OpId::FileHistory => {},
                OpId::FileDiff => {},
                OpId::LockFileQuery => {},
                OpId::LockFileStatus => {},
                OpId::LockFileAcquire => {},
                OpId::LockFileAcquireAsOwner => {},
                OpId::LockFileMessageSend => {},
                OpId::LockFileRelease => {},
            }
        }
    }
    None
}

/// The message the dispatcher answers an unknown id with.
pub open spec fn unknown_op_text(op_id: Seq<char>) -> Seq<char> {
    "unknown op `"@ + op_id + "`; see lore_vm::supported_ops() for the dispatchable set"@
}

/// The operation `op_id` names, or the structured parse error the dispatcher
/// answers an unknown id with.
pub fn resolve_op(op_id: &str) -> (r: Result<OpId, LoreError>)
    ensures
        forall|op: OpId| r == Ok::<OpId, LoreError>(op) <==> op_id@ == op_name(op),
        r is Err <==> !is_supported(op_id@),
        r is Err ==> (r matches Err(LoreError::Parse(m)) && m@ == unknown_op_text(op_id@)),
{
    match route(op_id) {
        Some(op) => Ok(op),
        None => {
            let mut m = prefixed("unknown op `", op_id);
            m.append("`; see lore_vm::supported_ops() for the dispatchable set");
            Err(LoreError::Parse(m))
        },
    }
}

/// The error for arguments that could not be decoded into an operation's arguments.
pub fn args_error(op_id: &str, detail: &str) -> (r: LoreError)
    ensures
        r matches LoreError::Parse(m) && m@ == "could not parse args for `"@ + op_id@ + "`: "@ + detail@,
{
    let mut m = prefixed("could not parse args for `", op_id);
    m.append("`: ");
    m.append(detail);
    LoreError::Parse(m)
}

/// The error for a result that could not be encoded.
pub fn result_error(op_id: &str, detail: &str) -> (r: LoreError)
    ensures
        r matches LoreError::Parse(m) && m@ == "could not serialise result for `"@ + op_id@ + "`: "@ + detail@,
{
    let mut m = prefixed("could not serialise result for `", op_id);
    m.append("`: ");
    m.append(detail);
    LoreError::Parse(m)
}

/// True when `op_id` mutates durable on-disk state, so that a failed flush
/// after it is a hard error rather than a tolerable one.
pub fn is_mutating_op(op_id: &str) -> (r: bool)
    ensures
        r == is_mutating_name(op_id@),
{
    match route(op_id) {
        Some(op) => {
            proof {
                if is_mutating_name(op_id@) {
                    let k = choose|k: OpId| mutates(k) && op_name(k) == op_id@;
                    lemma_op_names_distinct(k, op);
                }
            }
            op.is_mutating()
        },
        None => false,
    }
}

/// The text every flush-failure message is compared in: the message lower-cased.
pub uninterp spec fn lowercase(s: Seq<char>) -> Seq<char>;

/// `str::to_lowercase`: the Unicode lower-case mapping of the whole text.
/// Only that the result is the named function of its argument is claimed.
#[verifier::external_body]
fn to_lowercase(s: &str) -> (r: String)
    ensures
        r@ == lowercase(s@),
{
    s.to_lowercase()
}

/// True when lower-cased flush-failure text says there is no store to flush.
pub open spec fn benign_flush_text(lowered: Seq<char>) -> bool {
    ||| spec_contains(lowered, "no repository"@)
    ||| spec_contains(lowered, "no store"@)
    ||| spec_contains(lowered, "not a repository"@)
    ||| spec_contains(lowered, "store not open"@)
}

/// True when lower-cased flush-failure text says there is no store to flush.
pub fn is_benign_flush_message(lowered: &str) -> (r: bool)
    ensures
        r == benign_flush_text(lowered@),
{
    let v = chars_of(lowered);
    contains(&v, "no repository") || contains(&v, "no store") || contains(&v, "not a repository")
        || contains(&v, "store not open")
}

/// True when a flush failure is benign: no repository at the path, or an
/// engine failure whose lower-cased message says there is no store to flush.
pub open spec fn benign_flush_failure(err: LoreError) -> bool {
    match err {
        LoreError::NoRepository(_) => true,
        LoreError::CommandFailed(m) => benign_flush_text(lowercase(m@)),
        LoreError::Client(m) => benign_flush_text(lowercase(m@)),
        _ => false,
    }
}

/// True when a flush failure may be tolerated even after a mutating operation.
pub fn is_benign_flush_failure(err: &LoreError) -> (r: bool)
    ensures
        r == benign_flush_failure(*err),
{
    match err {
        LoreError::NoRepository(_) => true,
        LoreError::CommandFailed(m) | LoreError::Client(m) => {
            let lowered = to_lowercase(m.as_str());
            is_benign_flush_message(lowered.as_str())
        },
        _ => false,
    }
}

} // verus!
