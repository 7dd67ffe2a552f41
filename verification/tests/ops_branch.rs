use lore_vm::error::LoreError;
use lore_vm::events::{
    BranchCreateData, BranchDiffConflictData, DiffChangeData, EventStream, FileAction, HashText, LoreEvent,
    MetadataData, MetadataValue, NameData, PathData, RevisionData,
};
use lore_vm::ops::branch::archive::{archive_from_events, BranchArchiveArgs};
use lore_vm::ops::branch::create::{create_from_events, BranchCreateArgs};
use lore_vm::ops::branch::diff::{diff_from_events, BranchDiffAction, BranchDiffArgs};
use lore_vm::ops::branch::info::BranchInfoArgs;
use lore_vm::ops::branch::latest_list::BranchLatestListArgs;
use lore_vm::ops::branch::merge_abort::BranchMergeAbortArgs;
use lore_vm::ops::branch::merge_into::BranchMergeIntoArgs;
use lore_vm::ops::branch::merge_resolve::{merge_resolve_from_events, BranchMergeResolveArgs};
use lore_vm::ops::branch::merge_restart::BranchMergeRestartArgs;
use lore_vm::ops::branch::merge_unresolve::BranchMergeUnresolveArgs;
use lore_vm::ops::branch::metadata_get::{format_metadata_value, metadata_get_from_events, BranchMetadataGetArgs};
use lore_vm::ops::branch::metadata_set::{MetadataFormat, MetadataSetArgs};
use lore_vm::ops::branch::protect::BranchProtectArgs;
use lore_vm::ops::branch::push::BranchPushArgs;
use lore_vm::ops::branch::reset::BranchResetArgs;
use lore_vm::ops::branch::switch::BranchSwitchArgs;
use lore_vm::ops::branch::unprotect::BranchUnprotectArgs;
use lore_vm::events::LoreMetadataType;

fn ok_stream(events: Vec<LoreEvent>) -> EventStream {
    EventStream { ok: true, error: None, events }
}

#[test]
fn archive_args_into_lore_conversion() {
    let args = BranchArchiveArgs { branch: "feature/test".into() };
    let lore_args = args.into_lore();
    assert_eq!(lore_args.branch.as_str(), "feature/test");
}

#[test]
fn create_args_into_lore_conversion() {
    let args = BranchCreateArgs { branch: "main".into(), category: "trunk".into(), id: "deadbeef".into() };
    let lore_args = args.into_lore();
    assert_eq!(lore_args.branch.as_str(), "main");
    assert_eq!(lore_args.category.as_str(), "trunk");
    assert_eq!(lore_args.id.as_str(), "deadbeef");
}

#[test]
fn diff_args_into_lore_conversion() {
    let args = BranchDiffArgs {
        source: "dev".into(),
        target: "main".into(),
        path: "assets/".into(),
        auto_resolve: true,
    };
    let lore_args = args.into_lore("/repo");
    assert_eq!(lore_args.source.as_str(), "dev");
    assert_eq!(lore_args.target.as_str(), "main");
    assert_eq!(lore_args.path.as_str(), "/repo/assets/");
    assert_eq!(lore_args.auto_resolve, 1);
}

#[test]
fn diff_args_auto_resolve_false() {
    let args = BranchDiffArgs { source: "a".into(), target: "b".into(), path: String::new(), auto_resolve: false };
    let lore_args = args.into_lore("/repo");
    assert_eq!(lore_args.auto_resolve, 0);
}

#[test]
fn branch_info_args_into_lore_conversion() {
    let args = BranchInfoArgs { branch: "feature/test".into() };
    let lore_args = args.into_lore();
    assert_eq!(lore_args.branch.as_str(), "feature/test");
}

#[test]
fn latest_list_args_into_lore_conversion() {
    let args = BranchLatestListArgs { branch: "feature/test".into(), limit: 5 };
    let lore_args = args.into_lore();
    assert_eq!(lore_args.branch.as_str(), "feature/test");
    assert_eq!(lore_args.limit, 5);
}

#[test]
fn merge_abort_args_into_lore_conversion() {
    let args = BranchMergeAbortArgs { link: "some-link".into(), ignore_links: true };
    let lore_args = args.into_lore();
    assert_eq!(lore_args.link.as_str(), "some-link");
    assert_eq!(lore_args.ignore_links, 1);
}

#[test]
fn merge_abort_args_ignore_links_false() {
    let args = BranchMergeAbortArgs { link: String::new(), ignore_links: false };
    let lore_args = args.into_lore();
    assert_eq!(lore_args.ignore_links, 0);
}

#[test]
fn merge_into_args_into_lore_conversion() {
    let args = BranchMergeIntoArgs {
        branch: "target-branch".into(),
        branch_id: String::new(),
        message: "my merge message".into(),
        link: String::new(),
        ignore_links: true,
    };
    let lore_args = args.into_lore();
    assert_eq!(lore_args.branch.as_str(), "target-branch");
    assert_eq!(lore_args.message.as_str(), "my merge message");
    assert_eq!(lore_args.ignore_links, 1);
}

#[test]
fn merge_into_args_ignore_links_false() {
    let args = BranchMergeIntoArgs {
        branch: "main".into(),
        branch_id: String::new(),
        message: String::new(),
        link: String::new(),
        ignore_links: false,
    };
    let lore_args = args.into_lore();
    assert_eq!(lore_args.ignore_links, 0);
}

#[test]
fn merge_resolve_args_into_lore_conversion() {
    let args = BranchMergeResolveArgs { paths: vec!["a.txt".into(), "b.txt".into()] };
    let lore_args = args.into_lore();
    assert_eq!(lore_args.paths.as_slice().len(), 2);
}

#[test]
fn merge_restart_args_into_lore_conversion() {
    let args = BranchMergeRestartArgs { paths: vec!["a.txt".into(), "b.txt".into()] };
    let lore_args = args.into_lore("/repo");
    assert_eq!(lore_args.paths.as_slice().len(), 2);
}

#[test]
fn merge_unresolve_args_into_lore_conversion() {
    let args = BranchMergeUnresolveArgs { paths: vec!["a.txt".into(), "b.txt".into()] };
    let lore_args = args.into_lore("/repo");
    assert_eq!(lore_args.paths.as_slice().len(), 2);
}

#[test]
fn metadata_get_args_into_lore_conversion() {
    let args = BranchMetadataGetArgs { branch: "feature/test".into(), key: "owner".into() };
    let lore_args = args.into_lore();
    assert_eq!(lore_args.branch.as_str(), "feature/test");
    assert_eq!(lore_args.key.as_str(), "owner");
}

#[test]
fn protect_args_into_lore_conversion() {
    let args = BranchProtectArgs { branch: "feature/test".into() };
    let lore_args = args.into_lore();
    assert_eq!(lore_args.branch.as_str(), "feature/test");
}

#[test]
fn push_args_into_lore_conversion() {
    let args = BranchPushArgs { branch: "feature/x".into(), fast_forward_merge: true };
    let lore_args = args.into_lore();
    assert_eq!(lore_args.branch.as_str(), "feature/x");
    assert_eq!(lore_args.fast_forward_merge, 1);
}

#[test]
fn push_args_into_lore_no_ff() {
    let args = BranchPushArgs { branch: String::new(), fast_forward_merge: false };
    let lore_args = args.into_lore();
    assert_eq!(lore_args.branch.as_str(), "");
    assert_eq!(lore_args.fast_forward_merge, 0);
}

#[test]
fn reset_args_into_lore_conversion() {
    let args = BranchResetArgs { revision: "deadbeef".into(), branch: "main".into() };
    let lore_args = args.into_lore();
    assert_eq!(lore_args.revision.as_str(), "deadbeef");
    assert_eq!(lore_args.branch.as_str(), "main");
}

#[test]
fn switch_args_into_lore_conversion() {
    let args = BranchSwitchArgs { branch: "main".into(), revision: String::new(), reset: false, bare: false };
    let lore_args = args.into_lore();
    assert_eq!(lore_args.branch.as_str(), "main");
}

#[test]
fn unprotect_args_into_lore_conversion() {
    let args = BranchUnprotectArgs { branch: "feature/test".into() };
    let lore_args = args.into_lore();
    assert_eq!(lore_args.branch.as_str(), "feature/test");
}

#[test]
fn archive_reports_first_archived_name() {
    let stream = ok_stream(vec![
        LoreEvent::Other,
        LoreEvent::BranchArchive(NameData { name: "old".into() }),
        LoreEvent::BranchArchive(NameData { name: "later".into() }),
    ]);
    let r = archive_from_events(&stream, "0").unwrap();
    assert_eq!(r.branch, "old");
}

#[test]
fn archive_without_event_is_a_command_failure() {
    let stream = ok_stream(vec![LoreEvent::Other]);
    match archive_from_events(&stream, "0") {
        Err(LoreError::CommandFailed(m)) => {
            assert_eq!(m, "branch archive reported success but emitted no BranchArchive event")
        },
        other => panic!("unexpected {other:?}"),
    }
}

#[test]
fn failed_stream_reports_its_own_error_or_the_status() {
    let with_error = EventStream { ok: false, error: Some("boom".into()), events: vec![] };
    match archive_from_events(&with_error, "7") {
        Err(LoreError::CommandFailed(m)) => assert_eq!(m, "boom"),
        other => panic!("unexpected {other:?}"),
    }
    let without_error = EventStream { ok: false, error: None, events: vec![] };
    match archive_from_events(&without_error, "7") {
        Err(LoreError::CommandFailed(m)) => assert_eq!(m, "branch archive failed with status 7"),
        other => panic!("unexpected {other:?}"),
    }
}

#[test]
fn create_shows_zero_latest_as_empty() {
    let stream = ok_stream(vec![LoreEvent::BranchCreate(BranchCreateData {
        name: "topic".into(),
        latest: HashText { text: "0000".into(), is_zero: true },
        is_commit: 1,
    })]);
    let r = create_from_events(&stream, "0").unwrap();
    assert_eq!(r.name, "topic");
    assert_eq!(r.latest, "");
    assert!(r.is_commit);
    match create_from_events(&ok_stream(vec![]), "0") {
        Err(LoreError::Parse(m)) => assert_eq!(m, "branch created successfully but no BranchCreate event emitted"),
        other => panic!("unexpected {other:?}"),
    }
}

#[test]
fn diff_collects_changes_and_conflicts_in_order() {
    let change = |p: &str, a: FileAction, m: u8| DiffChangeData { path: p.into(), action: a, automerged: m };
    let stream = ok_stream(vec![
        LoreEvent::BranchDiffChange(change("a.txt", FileAction::Add, 0)),
        LoreEvent::BranchDiffConflict(BranchDiffConflictData {
            source_change: change("c.txt", FileAction::Move, 1),
            target_change: change("c.txt", FileAction::Delete, 0),
        }),
        LoreEvent::BranchDiffChange(change("b.txt", FileAction::Copy, 1)),
    ]);
    let r = diff_from_events(&stream, "0").unwrap();
    assert_eq!(r.changes.len(), 2);
    assert_eq!(r.changes[0].path, "a.txt");
    assert_eq!(r.changes[0].action, BranchDiffAction::Add);
    assert!(!r.changes[0].automerged);
    assert_eq!(r.changes[1].action, BranchDiffAction::Copy);
    assert!(r.changes[1].automerged);
    assert_eq!(r.conflicts.len(), 1);
    assert_eq!(r.conflicts[0].source_change.action, BranchDiffAction::Move);
    assert_eq!(r.conflicts[0].target_change.action, BranchDiffAction::Delete);
}

#[test]
fn merge_resolve_keeps_last_revision() {
    let stream = ok_stream(vec![
        LoreEvent::BranchMergeResolveFile(PathData { path: "x".into() }),
        LoreEvent::BranchMergeResolveRevision(RevisionData { revision: "r1".into() }),
        LoreEvent::BranchMergeResolveFile(PathData { path: "y".into() }),
        LoreEvent::BranchMergeResolveRevision(RevisionData { revision: "r2".into() }),
    ]);
    let r = merge_resolve_from_events(&stream, "0").unwrap();
    assert_eq!(r.resolved_paths, vec!["x".to_string(), "y".to_string()]);
    assert_eq!(r.revision, "r2");
}

#[test]
fn branch_metadata_values_show_as_text() {
    assert_eq!(format_metadata_value(&MetadataValue::Numeric(1234)), ("1234".to_string(), "numeric"));
    assert_eq!(format_metadata_value(&MetadataValue::Boolean(0)), ("false".to_string(), "boolean"));
    assert_eq!(format_metadata_value(&MetadataValue::Binary(vec![1, 2])), ("<binary>".to_string(), "binary"));
    let stream = ok_stream(vec![LoreEvent::Metadata(MetadataData {
        key: "owner".into(),
        value: MetadataValue::String("ana".into()),
    })]);
    let r = metadata_get_from_events("main".into(), &stream, "0").unwrap();
    assert_eq!(r.branch, "main");
    assert_eq!(r.entries.len(), 1);
    assert_eq!(r.entries[0].value, "ana");
    assert_eq!(r.entries[0].value_type, "string");
}

#[test]
fn metadata_set_pads_missing_formats_with_strings() {
    let args = MetadataSetArgs {
        branch: "main".into(),
        keys: vec!["a".into(), "b".into(), "c".into()],
        values: vec!["1".into(), "2".into(), "3".into()],
        formats: vec![MetadataFormat::Numeric],
    };
    let lore_args = args.into_lore();
    assert_eq!(
        lore_args.formats,
        vec![LoreMetadataType::Numeric, LoreMetadataType::String, LoreMetadataType::String]
    );
}
