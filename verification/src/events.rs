//! The events an engine operation reports, as plain values, and the stream
//! they arrive in.
//!
//! Engine values that the operations only display (hashes, contexts,
//! addresses, repository ids) are carried as the text they display as; a hash
//! that the operations test for zero carries that test's outcome beside it.
use vstd::prelude::*;
use crate::error::{LoreError, Result, prefixed};

verus! {

/// The action recorded for a file.
#[derive(Debug, Clone, Copy, PartialEq, Eq, Structural)]
pub enum FileAction {
    Keep,
    Add,
    Delete,
    Move,
    Copy,
}

/// The lower-case name of a file action.
pub open spec fn action_name(a: FileAction) -> Seq<char> {
    match a {
        FileAction::Keep => "keep"@,
        FileAction::Add => "add"@,
        FileAction::Delete => "delete"@,
        FileAction::Move => "move"@,
        FileAction::Copy => "copy"@,
    }
}

/// Different file actions have different names, so an action read back by
/// its name is the action that was reported.
pub proof fn lemma_action_names_distinct(a: FileAction, b: FileAction)
    ensures
        action_name(a) == action_name(b) ==> a == b,
{
    reveal_strlit("keep");
    reveal_strlit("add");
    reveal_strlit("delete");
    reveal_strlit("move");
    reveal_strlit("copy");
    assert("keep"@.len() == 4 && "keep"@[0] == 'k');
    assert("add"@.len() == 3 && "add"@[0] == 'a');
    assert("delete"@.len() == 6 && "delete"@[0] == 'd');
    assert("move"@.len() == 4 && "move"@[0] == 'm');
    assert("copy"@.len() == 4 && "copy"@[0] == 'c');
}

/// The lower-case name of a file action.
pub fn action_to_string(a: &FileAction) -> (r: String)
    ensures
        r@ == action_name(*a),
{
    match a {
        FileAction::Keep => String::from_str("keep"),
        FileAction::Add => String::from_str("add"),
        FileAction::Delete => String::from_str("delete"),
        FileAction::Move => String::from_str("move"),
        FileAction::Copy => String::from_str("copy"),
    }
}

/// A hash as displayed, with whether it is the zero hash.
#[derive(Debug)]
pub struct HashText {
    pub text: String,
    pub is_zero: bool,
}

/// The text a hash shows as in results: empty for the zero hash.
pub open spec fn shown_hash(h: HashText) -> Seq<char> {
    if h.is_zero {
        Seq::empty()
    } else {
        h.text@
    }
}

/// The text a hash shows as in results: empty for the zero hash.
pub fn hash_or_empty(h: &HashText) -> (r: String)
    ensures
        r@ == shown_hash(*h),
{
    if h.is_zero {
        String::new()
    } else {
        h.text.clone()
    }
}

/// The type a metadata value is written as.
#[derive(Debug, Clone, Copy, PartialEq, Eq, Structural)]
pub enum LoreMetadataType {
    Binary,
    Numeric,
    String,
}

/// A metadata value as reported by the engine.
#[derive(Debug)]
pub enum MetadataValue {
    String(String),
    Numeric(u64),
    Boolean(u8),
    /// A hash, as displayed.
    Hash(String),
    /// An address, as displayed.
    Address(String),
    /// A context, as displayed.
    Context(String),
    Binary(Vec<u8>),
}

#[derive(Debug)]
pub struct AuthIdentityData {
    pub auth_url: String,
    pub resource: String,
    pub user_id: String,
    pub authorized_domains: String,
    pub expires: u64,
    pub token: String,
}

#[derive(Debug)]
pub struct AuthUserInfoData {
    pub id: String,
    pub name: String,
}

#[derive(Debug)]
pub struct AuthUserTokenData {
    pub id: String,
    pub name: String,
    pub token: String,
    pub preferred_username: String,
    pub flag_service_account: u8,
    pub expires: u64,
}

#[derive(Debug)]
pub struct NameData {
    pub name: String,
}

#[derive(Debug)]
pub struct PathData {
    pub path: String,
}

#[derive(Debug)]
pub struct RevisionData {
    pub revision: String,
}

#[derive(Debug)]
pub struct BranchCreateData {
    pub name: String,
    pub latest: HashText,
    pub is_commit: u8,
}

#[derive(Debug)]
pub struct DiffChangeData {
    pub path: String,
    pub action: FileAction,
    pub automerged: u8,
}

#[derive(Debug)]
pub struct BranchDiffConflictData {
    pub source_change: DiffChangeData,
    pub target_change: DiffChangeData,
}

#[derive(Debug)]
pub struct BranchInfoData {
    pub id: String,
    pub name: String,
    pub category: String,
    pub latest: String,
    pub latest_remote: String,
    pub parent: String,
    pub branch_point: String,
    pub creator: String,
    pub created: u64,
    pub archived: u8,
}

#[derive(Debug)]
pub struct BranchLatestListEntryData {
    pub branch: String,
    pub revision: String,
}

#[derive(Debug)]
pub struct BranchMergeAbortBeginData {
    pub state_staged_revision: String,
    pub state_current_revision: String,
}

#[derive(Debug)]
pub struct BranchMergeIntoRevisionData {
    pub revision: String,
    pub revision_number: u64,
}

#[derive(Debug)]
pub struct RevisionSyncFileData {
    pub path: String,
    pub size: u64,
    /// The action, as debug-printed.
    pub action: String,
    pub flag_file: u8,
}

#[derive(Debug)]
pub struct MetadataData {
    pub key: String,
    pub value: MetadataValue,
}

#[derive(Debug)]
pub struct BranchPushData {
    pub branch_name: String,
    pub local_revision: HashText,
    pub remote_revision: HashText,
    pub local_history: u64,
    pub flag_already_pushed: u8,
}

#[derive(Debug)]
pub struct BranchResetData {
    pub name: String,
    pub revision: String,
}

#[derive(Debug)]
pub struct CountData {
    pub count: u64,
}

#[derive(Debug)]
pub struct DependencyListEntryData {
    pub path: String,
    pub tags: Vec<String>,
    pub depth: u32,
}

#[derive(Debug)]
pub struct FileDiffData {
    pub path: String,
    pub patch: String,
    pub action: FileAction,
}

#[derive(Debug)]
pub struct FileDumpData {
    pub address: String,
    pub flags: u32,
    pub size_payload: u32,
    pub size_content: u64,
    pub match_made: u8,
}

#[derive(Debug)]
pub struct FileHashData {
    pub path: String,
    pub size: u64,
    pub hash: String,
}

#[derive(Debug)]
pub struct FileHistoryData {
    pub path: String,
    pub repository: String,
    pub revision: String,
    pub revision_number: u64,
    pub parents: Vec<HashText>,
    pub address: String,
    pub size: u64,
    pub action: FileAction,
}

#[derive(Debug)]
pub struct FileInfoData {
    pub path: String,
    pub context: String,
    pub hash: String,
    pub is_file: u8,
    pub is_dir: u8,
    pub flag_modified: u8,
    pub flag_deleted: u8,
    pub flag_added: u8,
    pub flag_conflict: u8,
    pub mode: u16,
    pub size: u64,
    pub local_size: u64,
    pub local_hash: String,
    pub filter_size: u64,
}

#[derive(Debug)]
pub struct FileObliterateData {
    pub address: String,
    pub num_fragments: usize,
    pub num_payloads: usize,
}

#[derive(Debug)]
pub struct FileChangeData {
    pub path: String,
    pub from_path: String,
    pub action: FileAction,
}

#[derive(Debug)]
pub struct FileResetCountData {
    pub directory_reset_count: u64,
    pub directory_delete_count: u64,
    pub file_reset_count: u64,
    pub file_delete_count: u64,
}

#[derive(Debug)]
pub struct FileUnstageFileData {
    pub path: String,
    pub action: FileAction,
}

#[derive(Debug)]
pub struct FileUnstageCountData {
    pub directory_unstaged_count: u64,
    pub directory_discarded_count: u64,
    pub file_unstaged_count: u64,
    pub file_discarded_count: u64,
    pub total_count: u64,
}

#[derive(Debug)]
pub struct LayerAddData {
    pub target_path: String,
    pub source_repository: String,
    pub source_path: String,
    pub metadata: String,
    pub revision: String,
}

#[derive(Debug)]
pub struct StagedEntryData {
    pub path: String,
    pub repository: String,
    pub staged_file_count: u64,
}

#[derive(Debug)]
pub struct LinkEntryData {
    pub link_path: String,
    pub link: String,
    pub source_node: String,
    pub link_node: String,
}

/// One event reported by an engine operation.
#[derive(Debug)]
pub enum LoreEvent {
    AuthIdentity(AuthIdentityData),
    AuthUserInfo(AuthUserInfoData),
    AuthUserToken(AuthUserTokenData),
    BranchArchive(NameData),
    BranchCreate(BranchCreateData),
    BranchDiffChange(DiffChangeData),
    BranchDiffConflict(BranchDiffConflictData),
    BranchInfo(BranchInfoData),
    BranchLatestListEntry(BranchLatestListEntryData),
    BranchMergeAbortBegin(BranchMergeAbortBeginData),
    BranchMergeIntoRevision(BranchMergeIntoRevisionData),
    BranchMergeResolveFile(PathData),
    BranchMergeResolveRevision(RevisionData),
    BranchMergeConflictFile(PathData),
    RevisionSyncFile(RevisionSyncFileData),
    BranchMergeUnresolveFile(PathData),
    Metadata(MetadataData),
    BranchProtect(NameData),
    BranchUnprotect(NameData),
    BranchPush(BranchPushData),
    BranchReset(BranchResetData),
    /// The end of a branch switch, with the name of the branch switched to.
    BranchSwitchEnd(NameData),
    /// The end of a dependency add, with the number of dependencies added.
    FileDependencyAddEnd(CountData),
    /// The start of a dependency listing, with the number of files listed.
    FileDependencyListBegin(CountData),
    FileDependencyListFile(PathData),
    FileDependencyListEntry(DependencyListEntryData),
    FileDependencyListFileEnd,
    /// The end of a dependency listing, with the number of entries listed.
    FileDependencyListEnd(CountData),
    FileDiff(FileDiffData),
    FileDump(FileDumpData),
    FileHash(FileHashData),
    FileHistory(FileHistoryData),
    FileInfo(FileInfoData),
    FileObliterate(FileObliterateData),
    FileResetFile(FileChangeData),
    FileResetEnd(FileResetCountData),
    FileStageFile(FileChangeData),
    FileStageRevision(RevisionData),
    FileUnstageFile(FileUnstageFileData),
    FileUnstageEnd(FileUnstageCountData),
    FileWrite(PathData),
    LayerAdd(LayerAddData),
    LayerStagedEntry(StagedEntryData),
    LayerRemove,
    LinkChange,
    LinkEntry(LinkEntryData),
    LinkStagedEntry(StagedEntryData),
    /// Any event no operation here reads.
    Other,
}

/// Everything an engine operation reported: whether it succeeded, its error
/// message when it has one, and its events in order.
#[derive(Debug)]
pub struct EventStream {
    pub ok: bool,
    pub error: Option<String>,
    pub events: Vec<LoreEvent>,
}

/// The message an operation fails with when its stream reports failure: the
/// stream's own error, or `"<label> failed with status <status>"`.
pub open spec fn failure_text(error: Option<String>, label: Seq<char>, status: Seq<char>) -> Seq<char> {
    match error {
        Some(e) => e@,
        None => label + " failed with status "@ + status,
    }
}

/// True when `r` is the failure an operation reports for an unsuccessful stream.
pub open spec fn is_stream_failure<T>(r: Result<T>, stream: EventStream, label: Seq<char>, status: Seq<char>) -> bool {
    r matches Err(LoreError::CommandFailed(m)) && m@ == failure_text(stream.error, label, status)
}

/// Nothing when the stream succeeded; otherwise the command failure it reports.
pub fn check_stream(stream: &EventStream, label: &str, status: &str) -> (r: Result<()>)
    ensures
        stream.ok ==> r is Ok,
        !stream.ok ==> is_stream_failure(r, *stream, label@, status@),
{
    if stream.ok {
        return Ok(());
    }
    let m = match &stream.error {
        Some(e) => e.clone(),
        None => {
            let mut m = String::from_str(label);
            m.append(" failed with status ");
            m.append(status);
            m
        },
    };
    Err(LoreError::CommandFailed(m))
}

/// The error for an event stream that was dropped before it completed.
pub fn stream_cancelled(detail: &str) -> (r: LoreError)
    ensures
        r matches LoreError::CommandFailed(m) && m@ == "event stream cancelled: "@ + detail@,
{
    LoreError::CommandFailed(prefixed("event stream cancelled: ", detail))
}

/// Copies of a list of strings.
pub fn copy_strings(v: &Vec<String>) -> (r: Vec<String>)
    ensures
        r@ == v@,
{
    let mut r: Vec<String> = Vec::new();
    let mut i: usize = 0;
    while i < v.len()
        invariant
            i <= v.len(),
            r@ == v@.subrange(0, i as int),
        decreases v.len() - i,
    {
        r.push(v[i].clone());
        assert(r@ =~= v@.subrange(0, i + 1));
        i += 1;
    }
    assert(r@ =~= v@);
    r
}


/// The kind of an event: which variant it is, without its data.
#[derive(Debug, Clone, Copy, PartialEq, Eq, Structural)]
pub enum EventKind {
    AuthIdentity,
    AuthUserInfo,
    AuthUserToken,
    BranchArchive,
    BranchCreate,
    BranchDiffChange,
    BranchDiffConflict,
    BranchInfo,
    BranchLatestListEntry,
    BranchMergeAbortBegin,
    BranchMergeIntoRevision,
    BranchMergeResolveFile,
    BranchMergeResolveRevision,
    BranchMergeConflictFile,
    RevisionSyncFile,
    BranchMergeUnresolveFile,
    Metadata,
    BranchProtect,
    BranchUnprotect,
    BranchPush,
    BranchReset,
    BranchSwitchEnd,
    FileDependencyAddEnd,
    FileDependencyListBegin,
    FileDependencyListFile,
    FileDependencyListEntry,
    FileDependencyListFileEnd,
    FileDependencyListEnd,
    FileDiff,
    FileDump,
    FileHash,
    FileHistory,
    FileInfo,
    FileObliterate,
    FileResetFile,
    FileResetEnd,
    FileStageFile,
    FileStageRevision,
    FileUnstageFile,
    FileUnstageEnd,
    FileWrite,
    LayerAdd,
    LayerStagedEntry,
    LayerRemove,
    LinkChange,
    LinkEntry,
    LinkStagedEntry,
    Other,
}

/// The kind of an event.
pub open spec fn kind_of(e: LoreEvent) -> EventKind {
    match e {
        LoreEvent::AuthIdentity(..) => EventKind::AuthIdentity,
        LoreEvent::AuthUserInfo(..) => EventKind::AuthUserInfo,
        LoreEvent::AuthUserToken(..) => EventKind::AuthUserToken,
        LoreEvent::BranchArchive(..) => EventKind::BranchArchive,
        LoreEvent::BranchCreate(..) => EventKind::BranchCreate,
        LoreEvent::BranchDiffChange(..) => EventKind::BranchDiffChange,
        LoreEvent::BranchDiffConflict(..) => EventKind::BranchDiffConflict,
        LoreEvent::BranchInfo(..) => EventKind::BranchInfo,
        LoreEvent::BranchLatestListEntry(..) => EventKind::BranchLatestListEntry,
        LoreEvent::BranchMergeAbortBegin(..) => EventKind::BranchMergeAbortBegin,
        LoreEvent::BranchMergeIntoRevision(..) => EventKind::BranchMergeIntoRevision,
        LoreEvent::BranchMergeResolveFile(..) => EventKind::BranchMergeResolveFile,
        LoreEvent::BranchMergeResolveRevision(..) => EventKind::BranchMergeResolveRevision,
        LoreEvent::BranchMergeConflictFile(..) => EventKind::BranchMergeConflictFile,
        LoreEvent::RevisionSyncFile(..) => EventKind::RevisionSyncFile,
        LoreEvent::BranchMergeUnresolveFile(..) => EventKind::BranchMergeUnresolveFile,
        LoreEvent::Metadata(..) => EventKind::Metadata,
        LoreEvent::BranchProtect(..) => EventKind::BranchProtect,
        LoreEvent::BranchUnprotect(..) => EventKind::BranchUnprotect,
        LoreEvent::BranchPush(..) => EventKind::BranchPush,
        LoreEvent::BranchReset(..) => EventKind::BranchReset,
        LoreEvent::BranchSwitchEnd(..) => EventKind::BranchSwitchEnd,
        LoreEvent::FileDependencyAddEnd(..) => EventKind::FileDependencyAddEnd,
        LoreEvent::FileDependencyListBegin(..) => EventKind::FileDependencyListBegin,
        LoreEvent::FileDependencyListFile(..) => EventKind::FileDependencyListFile,
        LoreEvent::FileDependencyListEntry(..) => EventKind::FileDependencyListEntry,
        LoreEvent::FileDependencyListFileEnd => EventKind::FileDependencyListFileEnd,
        LoreEvent::FileDependencyListEnd(..) => EventKind::FileDependencyListEnd,
        LoreEvent::FileDiff(..) => EventKind::FileDiff,
        LoreEvent::FileDump(..) => EventKind::FileDump,
        LoreEvent::FileHash(..) => EventKind::FileHash,
        LoreEvent::FileHistory(..) => EventKind::FileHistory,
        LoreEvent::FileInfo(..) => EventKind::FileInfo,
        LoreEvent::FileObliterate(..) => EventKind::FileObliterate,
        LoreEvent::FileResetFile(..) => EventKind::FileResetFile,
        LoreEvent::FileResetEnd(..) => EventKind::FileResetEnd,
        LoreEvent::FileStageFile(..) => EventKind::FileStageFile,
        LoreEvent::FileStageRevision(..) => EventKind::FileStageRevision,
        LoreEvent::FileUnstageFile(..) => EventKind::FileUnstageFile,
        LoreEvent::FileUnstageEnd(..) => EventKind::FileUnstageEnd,
        LoreEvent::FileWrite(..) => EventKind::FileWrite,
        LoreEvent::LayerAdd(..) => EventKind::LayerAdd,
        LoreEvent::LayerStagedEntry(..) => EventKind::LayerStagedEntry,
        LoreEvent::LayerRemove => EventKind::LayerRemove,
        LoreEvent::LinkChange => EventKind::LinkChange,
        LoreEvent::LinkEntry(..) => EventKind::LinkEntry,
        LoreEvent::LinkStagedEntry(..) => EventKind::LinkStagedEntry,
        LoreEvent::Other => EventKind::Other,
    }
}

/// The kind of an event.
pub fn event_kind(e: &LoreEvent) -> (k: EventKind)
    ensures
        k == kind_of(*e),
{
    match e {
        LoreEvent::AuthIdentity(..) => EventKind::AuthIdentity,
        LoreEvent::AuthUserInfo(..) => EventKind::AuthUserInfo,
        LoreEvent::AuthUserToken(..) => EventKind::AuthUserToken,
        LoreEvent::BranchArchive(..) => EventKind::BranchArchive,
        LoreEvent::BranchCreate(..) => EventKind::BranchCreate,
        LoreEvent::BranchDiffChange(..) => EventKind::BranchDiffChange,
        LoreEvent::BranchDiffConflict(..) => EventKind::BranchDiffConflict,
        LoreEvent::BranchInfo(..) => EventKind::BranchInfo,
        LoreEvent::BranchLatestListEntry(..) => EventKind::BranchLatestListEntry,
        LoreEvent::BranchMergeAbortBegin(..) => EventKind::BranchMergeAbortBegin,
        LoreEvent::BranchMergeIntoRevision(..) => EventKind::BranchMergeIntoRevision,
        LoreEvent::BranchMergeResolveFile(..) => EventKind::BranchMergeResolveFile,
        LoreEvent::BranchMergeResolveRevision(..) => EventKind::BranchMergeResolveRevision,
        LoreEvent::BranchMergeConflictFile(..) => EventKind::BranchMergeConflictFile,
        LoreEvent::RevisionSyncFile(..) => EventKind::RevisionSyncFile,
        LoreEvent::BranchMergeUnresolveFile(..) => EventKind::BranchMergeUnresolveFile,
        LoreEvent::Metadata(..) => EventKind::Metadata,
        LoreEvent::BranchProtect(..) => EventKind::BranchProtect,
        LoreEvent::BranchUnprotect(..) => EventKind::BranchUnprotect,
        LoreEvent::BranchPush(..) => EventKind::BranchPush,
        LoreEvent::BranchReset(..) => EventKind::BranchReset,
        LoreEvent::BranchSwitchEnd(..) => EventKind::BranchSwitchEnd,
        LoreEvent::FileDependencyAddEnd(..) => EventKind::FileDependencyAddEnd,
        LoreEvent::FileDependencyListBegin(..) => EventKind::FileDependencyListBegin,
        LoreEvent::FileDependencyListFile(..) => EventKind::FileDependencyListFile,
        LoreEvent::FileDependencyListEntry(..) => EventKind::FileDependencyListEntry,
        LoreEvent::FileDependencyListFileEnd => EventKind::FileDependencyListFileEnd,
        LoreEvent::FileDependencyListEnd(..) => EventKind::FileDependencyListEnd,
        LoreEvent::FileDiff(..) => EventKind::FileDiff,
        LoreEvent::FileDump(..) => EventKind::FileDump,
        LoreEvent::FileHash(..) => EventKind::FileHash,
        LoreEvent::FileHistory(..) => EventKind::FileHistory,
        LoreEvent::FileInfo(..) => EventKind::FileInfo,
        LoreEvent::FileObliterate(..) => EventKind::FileObliterate,
        LoreEvent::FileResetFile(..) => EventKind::FileResetFile,
        LoreEvent::FileResetEnd(..) => EventKind::FileResetEnd,
        LoreEvent::FileStageFile(..) => EventKind::FileStageFile,
        LoreEvent::FileStageRevision(..) => EventKind::FileStageRevision,
        LoreEvent::FileUnstageFile(..) => EventKind::FileUnstageFile,
        LoreEvent::FileUnstageEnd(..) => EventKind::FileUnstageEnd,
        LoreEvent::FileWrite(..) => EventKind::FileWrite,
        LoreEvent::LayerAdd(..) => EventKind::LayerAdd,
        LoreEvent::LayerStagedEntry(..) => EventKind::LayerStagedEntry,
        LoreEvent::LayerRemove => EventKind::LayerRemove,
        LoreEvent::LinkChange => EventKind::LinkChange,
        LoreEvent::LinkEntry(..) => EventKind::LinkEntry,
        LoreEvent::LinkStagedEntry(..) => EventKind::LinkStagedEntry,
        LoreEvent::Other => EventKind::Other,
    }
}


/// The events of kind `k`, in the order they were reported.
pub open spec fn of_kind(evs: Seq<LoreEvent>, k: EventKind) -> Seq<LoreEvent>
    decreases evs.len(),
{
    if evs.len() == 0 {
        Seq::empty()
    } else if kind_of(evs.last()) == k {
        of_kind(evs.drop_last(), k).push(evs.last())
    } else {
        of_kind(evs.drop_last(), k)
    }
}

/// The index of the first event of kind `k`, if any.
pub open spec fn first_of_kind(evs: Seq<LoreEvent>, k: EventKind) -> Option<int>
    decreases evs.len(),
{
    if evs.len() == 0 {
        None
    } else {
        match first_of_kind(evs.drop_last(), k) {
            Some(i) => Some(i),
            None => if kind_of(evs.last()) == k {
                Some(evs.len() - 1)
            } else {
                None
            },
        }
    }
}

/// The last event of kind `k`, if any.
pub open spec fn last_of_kind(evs: Seq<LoreEvent>, k: EventKind) -> Option<LoreEvent>
    decreases evs.len(),
{
    if evs.len() == 0 {
        None
    } else if kind_of(evs.last()) == k {
        Some(evs.last())
    } else {
        last_of_kind(evs.drop_last(), k)
    }
}

/// True when some event has kind `k`.
pub open spec fn has_kind(evs: Seq<LoreEvent>, k: EventKind) -> bool {
    first_of_kind(evs, k) is Some
}

/// Extending the scanned prefix by one event extends each fold by that event.
pub proof fn lemma_fold_step(evs: Seq<LoreEvent>, k: EventKind, i: int)
    requires
        0 <= i < evs.len(),
    ensures
        of_kind(evs.take(i + 1), k) == (if kind_of(evs[i]) == k {
            of_kind(evs.take(i), k).push(evs[i])
        } else {
            of_kind(evs.take(i), k)
        }),
        last_of_kind(evs.take(i + 1), k) == (if kind_of(evs[i]) == k {
            Some(evs[i])
        } else {
            last_of_kind(evs.take(i), k)
        }),
        first_of_kind(evs.take(i + 1), k) == (match first_of_kind(evs.take(i), k) {
            Some(j) => Some(j),
            None => if kind_of(evs[i]) == k {
                Some(i)
            } else {
                None
            },
        }),
{
    assert(evs.take(i + 1).drop_last() =~= evs.take(i));
    assert(evs.take(i + 1).last() == evs[i]);
}

/// The whole sequence is its own longest prefix.
pub proof fn lemma_take_all(evs: Seq<LoreEvent>)
    ensures
        evs.take(evs.len() as int) == evs,
{
    assert(evs.take(evs.len() as int) =~= evs);
}

/// Every event a fold of kind `k` keeps has kind `k`, and the first such
/// event is at a position of that kind.
pub proof fn lemma_of_kind_kinds(evs: Seq<LoreEvent>, k: EventKind)
    ensures
        forall|j: int| 0 <= j < of_kind(evs, k).len() ==> kind_of(#[trigger] of_kind(evs, k)[j]) == k,
        first_of_kind(evs, k) matches Some(i) ==> 0 <= i < evs.len() && kind_of(evs[i]) == k,
        first_of_kind(evs, k) is None <==> of_kind(evs, k).len() == 0,
        last_of_kind(evs, k) matches Some(e) ==> kind_of(e) == k,
        last_of_kind(evs, k) is None <==> of_kind(evs, k).len() == 0,
    decreases evs.len(),
{
    if evs.len() > 0 {
        lemma_of_kind_kinds(evs.drop_last(), k);
    }
}

/// The index of the first event of kind `k`, if any.
pub fn find_kind(events: &Vec<LoreEvent>, k: EventKind) -> (r: Option<usize>)
    ensures
        r matches Some(i) ==> first_of_kind(events@, k) == Some(i as int) && i < events.len()
            && kind_of(events@[i as int]) == k,
        r is None ==> first_of_kind(events@, k) is None,
{
    let mut i: usize = 0;
    while i < events.len()
        invariant
            i <= events.len(),
            first_of_kind(events@.take(i as int), k) is None,
        decreases events.len() - i,
    {
        proof {
            lemma_fold_step(events@, k, i as int);
        }
        if event_kind(&events[i]) == k {
            proof {
                lemma_first_of_kind_prefix(events@, k, i as int + 1);
            }
            return Some(i);
        }
        i += 1;
    }
    proof {
        lemma_take_all(events@);
    }
    None
}

/// Once a prefix holds an event of kind `k`, the first one stays the first.
pub proof fn lemma_first_of_kind_prefix(evs: Seq<LoreEvent>, k: EventKind, n: int)
    requires
        0 <= n <= evs.len(),
        first_of_kind(evs.take(n), k) is Some,
    ensures
        first_of_kind(evs, k) == first_of_kind(evs.take(n), k),
    decreases evs.len() - n,
{
    if n < evs.len() {
        lemma_fold_step(evs, k, n);
        lemma_first_of_kind_prefix(evs, k, n + 1);
    } else {
        lemma_take_all(evs);
    }
}

/// True when some event has kind `k`.
pub fn any_of_kind(events: &Vec<LoreEvent>, k: EventKind) -> (r: bool)
    ensures
        r == has_kind(events@, k),
{
    find_kind(events, k).is_some()
}


/// The path an event carries, for the events that carry only a path.
pub open spec fn event_path(e: LoreEvent) -> Option<String> {
    match e {
        LoreEvent::BranchMergeResolveFile(d) => Some(d.path),
        LoreEvent::BranchMergeConflictFile(d) => Some(d.path),
        LoreEvent::BranchMergeUnresolveFile(d) => Some(d.path),
        LoreEvent::FileDependencyListFile(d) => Some(d.path),
        LoreEvent::FileWrite(d) => Some(d.path),
        _ => None,
    }
}

/// True when `ps` are the paths that `evs` carry, in order.
pub open spec fn paths_of(ps: Seq<String>, evs: Seq<LoreEvent>) -> bool {
    ps.len() == evs.len() && forall|j: int| 0 <= j < evs.len() ==> Some(#[trigger] ps[j]) == event_path(evs[j])
}

/// The revision an event carries, for the events that carry only a revision.
pub open spec fn event_revision(e: LoreEvent) -> Option<String> {
    match e {
        LoreEvent::BranchMergeResolveRevision(d) => Some(d.revision),
        LoreEvent::FileStageRevision(d) => Some(d.revision),
        _ => None,
    }
}

/// The revision of the last event of kind `k`; empty when there is none.
pub open spec fn last_revision(evs: Seq<LoreEvent>, k: EventKind) -> Seq<char> {
    match last_of_kind(evs, k) {
        Some(e) => match event_revision(e) {
            Some(r) => r@,
            None => Seq::empty(),
        },
        None => Seq::empty(),
    }
}

} // verus!
