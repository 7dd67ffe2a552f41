use lore_vm::error::LoreError;
use lore_vm::events::{
    EventStream, FileAction, FileChangeData, FileHistoryData, FileResetCountData, FileUnstageCountData,
    FileUnstageFileData, HashText, LoreEvent, LoreMetadataType, MetadataData, MetadataValue, PathData,
    RevisionData,
};
use lore_vm::ops::file::diff::{default_context_lines, DiffArgs};
use lore_vm::ops::file::dirty::FileDirtyArgs;
use lore_vm::ops::file::dirty_copy::FileDirtyCopyArgs;
use lore_vm::ops::file::dirty_move::FileDirtyMoveArgs;
use lore_vm::ops::file::dump::FileDumpArgs;
use lore_vm::ops::file::hash::FileHashArgs;
use lore_vm::ops::file::history::{history_from_events, FileHistoryAction, FileHistoryArgs};
use lore_vm::ops::file::info::FileInfoArgs;
use lore_vm::ops::file::metadata_clear::MetadataClearArgs;
use lore_vm::base64::base64_text;
use lore_vm::ops::file::metadata_get::{convert_lore_metadata, metadata_get_from_events, MetadataEntryType};
use lore_vm::ops::file::metadata_list::metadata_list_from_events;
use lore_vm::ops::file::metadata_set::{metadata_set_totals, MetadataSetArgs, MetadataType};
use lore_vm::ops::file::obliterate::FileObliterateArgs;
use lore_vm::ops::file::reset::{reset_from_events, FileResetArgs, FileResetCounts};
use lore_vm::ops::file::reset_to_last_merged::{FileResetToLastMergedArgs, FileResetToLastMergedCounts};
use lore_vm::ops::file::stage::{
    is_dangling_staged_state, is_dangling_staged_state_for_test, restage_paths, stage_from_events, CaseChange,
    FileStageAction, FileStageArgs, FileStageResult, StageAction, StageEvent, StagePhase, StageRun,
};
use lore_vm::ops::file::stage_merge::FileStageMergeArgs;
use lore_vm::ops::file::stage_move::FileStageMoveArgs;
use lore_vm::ops::file::unstage::{unstage_from_events, FileUnstageArgs, FileUnstageCounts};
use lore_vm::ops::file::write::{write_from_events, FileWriteArgs};

fn ok_stream(events: Vec<LoreEvent>) -> EventStream {
    EventStream { ok: true, error: None, events }
}

#[test]
fn diff_diff_args_into_lore_conversion() {
    let args = DiffArgs {
        paths: vec!["file1.txt".into(), "file2.txt".into()],
        source_revision: "rev1".into(),
        target_revision: "rev2".into(),
        diff3: true,
        context_lines: 5,
        ignore_whitespace_eol: true,
        ignore_whitespace_inline: true,
    };
    let lore_args = args.into_lore();
    assert_eq!(lore_args.source_revision.as_str(), "rev1");
    assert_eq!(lore_args.target_revision.as_str(), "rev2");
    assert_eq!(lore_args.diff3, 1);
    assert_eq!(lore_args.context_lines, 5);
    assert_eq!(lore_args.ignore_whitespace_eol, 1);
    assert_eq!(lore_args.ignore_whitespace_inline, 1);
}

#[test]
fn diff_args_into_lore_paths() {
    let args = DiffArgs {
        paths: vec!["a.rs".into(), "b.rs".into()],
        source_revision: String::new(),
        target_revision: String::new(),
        diff3: false,
        context_lines: 3,
        ignore_whitespace_eol: false,
        ignore_whitespace_inline: false,
    };
    let lore_args = args.into_lore();
    assert_eq!(lore_args.paths.len(), 2);
}

#[test]
fn dirty_args_into_lore_conversion() {
    let args = FileDirtyArgs { paths: vec!["a.txt".into(), "b.txt".into()] };
    let lore_args = args.into_lore("/repo");
    assert_eq!(lore_args.paths.len(), 2);
}

#[test]
fn dirty_copy_args_into_lore_conversion() {
    let args = FileDirtyCopyArgs { from_path: "hello.md".into(), to_path: "hello_copy.md".into() };
    let lore_args = args.into_lore("/repo");
    assert_eq!(lore_args.from_path.as_str(), "/repo/hello.md");
    assert_eq!(lore_args.to_path.as_str(), "/repo/hello_copy.md");
}

#[test]
fn dirty_move_args_into_lore_conversion() {
    let args = FileDirtyMoveArgs { from_path: "hello.md".into(), to_path: "world.md".into() };
    let lore_args = args.into_lore("/repo");
    assert_eq!(lore_args.from_path.as_str(), "/repo/hello.md");
    assert_eq!(lore_args.to_path.as_str(), "/repo/world.md");
}

#[test]
fn file_dump_args_into_lore_conversion() {
    let args = FileDumpArgs { address: "abc123".into(), path: "test.txt".into() };
    let lore_args = args.into_lore("/repo");
    assert_eq!(lore_args.address.as_str(), "abc123");
    assert_eq!(lore_args.path.as_str(), "/repo/test.txt");
}

#[test]
fn file_hash_args_into_lore_conversion() {
    let args = FileHashArgs { paths: vec!["hello.md".into()] };
    let lore_args = args.into_lore();
    let slice = lore_args.paths.as_slice();
    assert_eq!(slice.len(), 1);
    assert_eq!(slice[0].as_str(), "hello.md");
}

#[test]
fn history_args_into_lore_conversion() {
    let args = FileHistoryArgs {
        path: "assets/texture.png".into(),
        revision: "rev1".into(),
        branch: "main".into(),
        length: 25,
        depth: 5,
    };
    let lore_args = args.into_lore();
    assert_eq!(lore_args.path.as_str(), "assets/texture.png");
    assert_eq!(lore_args.revision.as_str(), "rev1");
    assert_eq!(lore_args.branch.as_str(), "main");
    assert_eq!(lore_args.length, 25);
    assert_eq!(lore_args.depth, 5);
}

#[test]
fn file_info_args_into_lore_conversion() {
    let args = FileInfoArgs { paths: vec!["a.txt".into(), "b.txt".into()], revision: "rev1".into(), local: true, filtered: true };
    let lore_args = args.into_lore();
    assert_eq!(lore_args.revision.as_str(), "rev1");
    assert_eq!(lore_args.local, 1);
    assert_eq!(lore_args.filtered, 1);
}

#[test]
fn metadata_clear_args_into_lore() {
    let args = MetadataClearArgs { path: "test/file.txt".to_string() };
    let lore_args = args.into_lore();
    assert_eq!(lore_args.path.as_str(), "test/file.txt");
}

#[test]
fn metadata_type_from_lore() {
    assert_eq!(MetadataType::from(LoreMetadataType::Binary), MetadataType::Binary);
    assert_eq!(MetadataType::from(LoreMetadataType::Numeric), MetadataType::Numeric);
    assert_eq!(MetadataType::from(LoreMetadataType::String), MetadataType::String);
}

#[test]
fn metadata_type_into_lore() {
    assert_eq!(LoreMetadataType::from(MetadataType::Binary), LoreMetadataType::Binary);
    assert_eq!(LoreMetadataType::from(MetadataType::Numeric), LoreMetadataType::Numeric);
    assert_eq!(LoreMetadataType::from(MetadataType::String), LoreMetadataType::String);
}

#[test]
fn metadata_set_args_with_multiple_entries_per_path() {
    let args = MetadataSetArgs {
        paths: vec!["file1.txt".into(), "file2.txt".into()],
        keys: vec!["author".into(), "priority".into(), "reviewed".into()],
        values: vec!["alice".into(), "1".into(), "true".into()],
        formats: vec![MetadataType::String, MetadataType::Numeric, MetadataType::String],
        entries: vec![2, 1],
    };
    assert_eq!(args.paths.len(), 2);
    assert_eq!(args.keys.len(), 3);
    assert_eq!(args.entries.len(), 2);
    assert_eq!(args.entries.iter().sum::<u32>(), 3);
}

#[test]
fn file_obliterate_args_into_lore_conversion() {
    let args = FileObliterateArgs { address: String::new(), path: "hello.md".into() };
    let lore_args = args.into_lore("/repo");
    assert_eq!(lore_args.path.as_str(), "/repo/hello.md");
    assert!(lore_args.address.is_empty());
}

#[test]
fn file_reset_args_into_lore_conversion() {
    let args = FileResetArgs { paths: vec!["hello.md".into(), "world.txt".into()], revision: "latest".into(), purge: false };
    let lore_args = args.into_lore();
    assert_eq!(lore_args.paths.len(), 2);
    assert_eq!(lore_args.revision.as_str(), "latest");
    assert_eq!(lore_args.purge, 0);
}

#[test]
fn file_reset_args_into_lore_purge_flag() {
    let args = FileResetArgs { paths: vec![], revision: String::new(), purge: true };
    let lore_args = args.into_lore();
    assert_eq!(lore_args.purge, 1);
}

#[test]
fn file_reset_counts_default() {
    let counts = FileResetCounts::default();
    assert_eq!(counts.directory_reset_count, 0);
    assert_eq!(counts.directory_delete_count, 0);
    assert_eq!(counts.file_reset_count, 0);
    assert_eq!(counts.file_delete_count, 0);
}

#[test]
fn reset_to_last_merged_args_into_lore_conversion() {
    let args = FileResetToLastMergedArgs {
        paths: vec!["hello.md".into(), "world.txt".into()],
        branch: "feature-branch".into(),
        purge: false,
    };
    let lore_args = args.into_lore();
    assert_eq!(lore_args.paths.len(), 2);
    assert_eq!(lore_args.branch.as_str(), "feature-branch");
    assert_eq!(lore_args.purge, 0);
}

#[test]
fn args_into_lore_purge_flag() {
    let args = FileResetToLastMergedArgs { paths: vec![], branch: String::new(), purge: true };
    let lore_args = args.into_lore();
    assert_eq!(lore_args.purge, 1);
}

#[test]
fn counts_default() {
    let counts = FileResetToLastMergedCounts::default();
    assert_eq!(counts.directory_reset_count, 0);
    assert_eq!(counts.directory_delete_count, 0);
    assert_eq!(counts.file_reset_count, 0);
    assert_eq!(counts.file_delete_count, 0);
}

#[test]
fn stage_args_into_lore_conversion() {
    let args = FileStageArgs { paths: vec!["a.txt".into(), "b.txt".into()], case_change: CaseChange::Rename, scan: true };
    let lore_args = args.into_lore("/repo");
    assert_eq!(lore_args.paths.len(), 2);
    assert_eq!(lore_args.case_change, 2);
    assert_eq!(lore_args.scan, 1);
}

#[test]
fn stage_args_resolves_relative_paths_against_repo_root() {
    let args = FileStageArgs {
        paths: vec!["src/main.rs".into(), "README.md".into()],
        case_change: CaseChange::Error,
        scan: false,
    };
    let lore_args = args.into_lore("/work/myrepo");
    let resolved: Vec<String> = lore_args.paths.as_slice().iter().map(|p| p.as_str().to_string()).collect();
    assert_eq!(resolved.len(), 2);
    assert!(
        resolved.contains(&"/work/myrepo/src/main.rs".to_string()),
        "relative path should be resolved against repo root, got {resolved:?}"
    );
    assert!(
        resolved.contains(&"/work/myrepo/README.md".to_string()),
        "relative path should be resolved against repo root, got {resolved:?}"
    );
}

#[test]
fn stage_args_passes_absolute_paths_through() {
    let abs = "/work/myrepo/rel.txt";
    let args = FileStageArgs { paths: vec![abs.into()], case_change: CaseChange::Error, scan: false };
    let lore_args = args.into_lore("/some/other/root");
    assert_eq!(lore_args.paths.len(), 1);
    assert_eq!(lore_args.paths.as_slice()[0].as_str(), abs);
}

#[test]
fn dangling_classifier_matches_real_signals_only() {
    for msg in [
        "Failed to deserialize staged state: Failed to read state data",
        "Failed to deserialize staged state: Not found",
        "Failed to deserialize revision state: Failed to read state data",
        "Not found",
    ] {
        assert!(
            is_dangling_staged_state(&LoreError::CommandFailed(msg.into())),
            "{msg:?} should be classified as a dangling staged anchor"
        );
    }
    for msg in [
        "Address not found: ab12",
        "file not found: foo.txt",
        "Node not found",
        "Link not found",
        "Payload not found: deadbeef",
        "Failed to read state data",
        "path 'nope.txt' does not exist",
    ] {
        assert!(
            !is_dangling_staged_state(&LoreError::CommandFailed(msg.into())),
            "{msg:?} must NOT be classified as a dangling staged anchor"
        );
    }
}

#[test]
fn stage_merge_args_into_lore_conversion() {
    let args = FileStageMergeArgs { paths: vec!["a.txt".into(), "b.txt".into()] };
    let lore_args = args.into_lore("/repo");
    assert_eq!(lore_args.paths.len(), 2);
}

#[test]
fn args_into_lore_empty() {
    let args = FileStageMergeArgs { paths: vec![] };
    let lore_args = args.into_lore("/repo");
    assert_eq!(lore_args.paths.len(), 0);
}

#[test]
fn stage_move_args_into_lore_conversion() {
    let args = FileStageMoveArgs { from_path: "hello.md".into(), to_path: "world.md".into() };
    let lore_args = args.into_lore();
    assert_eq!(lore_args.from_path.as_str(), "hello.md");
    assert_eq!(lore_args.to_path.as_str(), "world.md");
}

#[test]
fn file_unstage_args_into_lore_conversion() {
    let args = FileUnstageArgs { paths: vec!["hello.md".into(), "world.txt".into()] };
    let lore_args = args.into_lore("/repo");
    assert_eq!(lore_args.paths.len(), 2);
}

#[test]
fn file_unstage_counts_default() {
    let counts = FileUnstageCounts::default();
    assert_eq!(counts.total_count, 0);
    assert_eq!(counts.file_unstaged_count, 0);
    assert_eq!(counts.file_discarded_count, 0);
    assert_eq!(counts.directory_unstaged_count, 0);
    assert_eq!(counts.directory_discarded_count, 0);
}

#[test]
fn write_args_with_address() {
    let args = FileWriteArgs {
        address: "addr-abc".into(),
        path: String::new(),
        revision: String::new(),
        output: "/tmp/out.bin".into(),
    };
    let lore_args = args.into_lore("/repo");
    assert_eq!(lore_args.address.as_str(), "addr-abc");
    assert_eq!(lore_args.path.as_str(), "/repo/");
    assert_eq!(lore_args.output.as_str(), "/tmp/out.bin");
}

#[test]
fn write_args_with_path_and_revision() {
    let args = FileWriteArgs {
        address: String::new(),
        path: "assets/texture.png".into(),
        revision: "rev42".into(),
        output: "/tmp/texture.png".into(),
    };
    let lore_args = args.into_lore("/repo");
    assert!(lore_args.address.as_str().is_empty());
    assert_eq!(lore_args.path.as_str(), "/repo/assets/texture.png");
    assert_eq!(lore_args.revision.as_str(), "rev42");
    assert_eq!(lore_args.output.as_str(), "/tmp/texture.png");
}

#[test]
fn context_lines_default_to_three() {
    assert_eq!(default_context_lines(), 3);
}

#[test]
fn dangling_test_entry_point_agrees() {
    assert!(is_dangling_staged_state_for_test(&LoreError::Client("Not found".into())));
    assert!(!is_dangling_staged_state_for_test(&LoreError::Parse("Not found".into())));
}

fn stage_file(path: &str, from: &str, action: FileAction) -> LoreEvent {
    LoreEvent::FileStageFile(FileChangeData { path: path.into(), from_path: from.into(), action })
}

#[test]
fn stage_collects_files_and_last_revision() {
    let stream = ok_stream(vec![
        stage_file("a.txt", "", FileAction::Add),
        LoreEvent::FileStageRevision(RevisionData { revision: "r1".into() }),
        stage_file("b.txt", "old.txt", FileAction::Move),
        LoreEvent::FileStageRevision(RevisionData { revision: "r2".into() }),
    ]);
    let r = stage_from_events(&stream, "0").unwrap();
    assert_eq!(r.files.len(), 2);
    assert_eq!(r.files[0].action, FileStageAction::Add);
    assert_eq!(r.files[1].from_path, "old.txt");
    assert_eq!(r.files[1].action, FileStageAction::Move);
    assert_eq!(r.revision, "r2");
    assert!(!r.healed);
}

#[test]
fn restage_union_keeps_scanned_then_new_requested() {
    let found = vec!["a".to_string(), "b".to_string()];
    let requested = vec!["b".to_string(), "c".to_string(), "c".to_string()];
    assert_eq!(restage_paths(found, &requested), vec!["a".to_string(), "b".to_string(), "c".to_string()]);
}

#[test]
fn stage_run_recovers_from_a_dangling_anchor() {
    let args = FileStageArgs { paths: vec!["x.txt".into()], case_change: CaseChange::Keep, scan: false };
    let (run, action) = StageRun::start(args);
    assert!(matches!(action, StageAction::Stage(ref a) if a.paths == vec!["x.txt".to_string()]));
    let e = StageEvent::Staged(Err(LoreError::CommandFailed("Not found".into())));
    assert!(run.expects(&e));
    let (run, action) = run.step(e);
    assert_eq!(run.phase, StagePhase::Resetting);
    assert!(matches!(action, StageAction::ResetAnchor));
    let (run, action) = run.step(StageEvent::AnchorReset(Ok(())));
    assert_eq!(run.phase, StagePhase::Scanning);
    assert!(matches!(action, StageAction::ScanDirty));
    let (run, action) = run.step(StageEvent::Scanned(Ok(vec!["y.txt".into(), "x.txt".into()])));
    assert_eq!(run.phase, StagePhase::Restaging);
    match action {
        StageAction::Stage(a) => {
            assert_eq!(a.paths, vec!["y.txt".to_string(), "x.txt".to_string()]);
            assert!(a.scan);
            assert_eq!(a.case_change, CaseChange::Keep);
        },
        other => panic!("unexpected {other:?}"),
    }
    let done = FileStageResult { files: vec![], revision: "r9".into(), healed: false };
    let (run, action) = run.step(StageEvent::Staged(Ok(done)));
    assert_eq!(run.phase, StagePhase::Finished);
    match action {
        StageAction::Finish(Ok(res)) => {
            assert!(res.healed);
            assert_eq!(res.revision, "r9");
        },
        other => panic!("unexpected {other:?}"),
    }
}

#[test]
fn stage_run_surfaces_the_first_error_when_the_reset_fails() {
    let args = FileStageArgs { paths: vec![], case_change: CaseChange::Error, scan: true };
    let (run, _) = StageRun::start(args);
    let (run, _) = run.step(StageEvent::Staged(Err(LoreError::Client("Failed to deserialize staged state: x".into()))));
    let (_, action) = run.step(StageEvent::AnchorReset(Err(LoreError::CommandFailed("reset broke".into()))));
    match action {
        StageAction::Finish(Err(LoreError::Client(m))) => assert_eq!(m, "Failed to deserialize staged state: x"),
        other => panic!("unexpected {other:?}"),
    }
}

#[test]
fn stage_run_passes_other_errors_through() {
    let args = FileStageArgs { paths: vec![], case_change: CaseChange::Error, scan: true };
    let (run, _) = StageRun::start(args);
    let (run, action) = run.step(StageEvent::Staged(Err(LoreError::CommandFailed("file not found: a".into()))));
    assert_eq!(run.phase, StagePhase::Finished);
    assert!(matches!(action, StageAction::Finish(Err(LoreError::CommandFailed(_)))));
}

#[test]
fn reset_keeps_last_counts_and_action_names() {
    let stream = ok_stream(vec![
        LoreEvent::FileResetFile(FileChangeData { path: "a".into(), from_path: "".into(), action: FileAction::Delete }),
        LoreEvent::FileResetEnd(FileResetCountData {
            directory_reset_count: 1,
            directory_delete_count: 2,
            file_reset_count: 3,
            file_delete_count: 4,
        }),
    ]);
    let r = reset_from_events(&stream, "0").unwrap();
    assert_eq!(r.files[0].action, "delete");
    assert_eq!(r.counts.file_delete_count, 4);
    let empty = reset_from_events(&ok_stream(vec![]), "0").unwrap();
    assert_eq!(empty.counts.directory_reset_count, 0);
}

#[test]
fn unstage_reads_files_and_counts() {
    let stream = ok_stream(vec![
        LoreEvent::FileUnstageFile(FileUnstageFileData { path: "a".into(), action: FileAction::Keep }),
        LoreEvent::FileUnstageEnd(FileUnstageCountData {
            directory_unstaged_count: 0,
            directory_discarded_count: 0,
            file_unstaged_count: 1,
            file_discarded_count: 0,
            total_count: 1,
        }),
    ]);
    let r = unstage_from_events(&stream, "0").unwrap();
    assert_eq!(r.files[0].action, "keep");
    assert_eq!(r.counts.total_count, 1);
}

#[test]
fn history_leaves_out_zero_parents() {
    let stream = ok_stream(vec![LoreEvent::FileHistory(FileHistoryData {
        path: "a".into(),
        repository: "repo".into(),
        revision: "r2".into(),
        revision_number: 2,
        parents: vec![
            HashText { text: "r1".into(), is_zero: false },
            HashText { text: "0000".into(), is_zero: true },
        ],
        address: "addr".into(),
        size: 10,
        action: FileAction::Keep,
    })]);
    let r = history_from_events(&stream, "0").unwrap();
    assert_eq!(r.entries[0].parents, vec!["r1".to_string()]);
    assert_eq!(r.entries[0].action, FileHistoryAction::Keep);
}

#[test]
fn write_reports_last_written_path() {
    let stream = ok_stream(vec![
        LoreEvent::FileWrite(PathData { path: "/a".into() }),
        LoreEvent::FileWrite(PathData { path: "/b".into() }),
    ]);
    assert_eq!(write_from_events(&stream, "0").unwrap().path, "/b");
    assert_eq!(write_from_events(&ok_stream(vec![]), "0").unwrap().path, "");
}

#[test]
fn metadata_values_show_as_text_and_binary_as_base64() {
    let stream = ok_stream(vec![
        LoreEvent::Metadata(MetadataData { key: "n".into(), value: MetadataValue::Numeric(42) }),
        LoreEvent::Metadata(MetadataData { key: "b".into(), value: MetadataValue::Binary(vec![1, 2, 255]) }),
        LoreEvent::Metadata(MetadataData { key: "e".into(), value: MetadataValue::Binary(vec![]) }),
        LoreEvent::Metadata(MetadataData { key: "t".into(), value: MetadataValue::Boolean(1) }),
    ]);
    let r = metadata_list_from_events(&stream, "0").unwrap();
    assert_eq!(r.entries[0].value, "42");
    assert_eq!(r.entries[1].value, "AQL/");
    assert_eq!(r.entries[2].value, "");
    assert_eq!(r.entries[3].value, "true");
    let first = metadata_get_from_events(&stream, "0").unwrap();
    assert_eq!(first.key, "n");
    assert_eq!(first.entry_type, MetadataEntryType::Numeric);
    match metadata_get_from_events(&ok_stream(vec![]), "0") {
        Err(LoreError::Parse(m)) => assert_eq!(m, "metadata_get succeeded but no Metadata event emitted"),
        other => panic!("unexpected {other:?}"),
    }
}

#[test]
fn metadata_set_totals_count_paths_and_entries() {
    let args = MetadataSetArgs {
        paths: vec!["a".into(), "b".into()],
        keys: vec![],
        values: vec![],
        formats: vec![],
        entries: vec![2, 1, 4],
    };
    assert_eq!(metadata_set_totals(&args), (2, 7));
}

#[test]
fn stage_run_surfaces_the_first_error_when_the_restage_fails() {
    let args = FileStageArgs { paths: vec!["a".into()], case_change: CaseChange::Error, scan: false };
    let (run, _) = StageRun::start(args);
    let (run, _) = run.step(StageEvent::Staged(Err(LoreError::CommandFailed("Not found".into()))));
    let (run, _) = run.step(StageEvent::AnchorReset(Ok(())));
    let (run, action) = run.step(StageEvent::Scanned(Err(LoreError::Client("scan failed".into()))));
    match action {
        StageAction::Stage(a) => assert_eq!(a.paths, vec!["a".to_string()]),
        other => panic!("unexpected {other:?}"),
    }
    let (_, action) = run.step(StageEvent::Staged(Err(LoreError::CommandFailed("disk full".into()))));
    match action {
        StageAction::Finish(Err(LoreError::CommandFailed(m))) => assert_eq!(m, "Not found"),
        other => panic!("unexpected {other:?}"),
    }
}

#[test]
fn binary_metadata_is_base64_encoded() {
    assert_eq!(
        convert_lore_metadata(&MetadataValue::Binary(vec![104, 105])).unwrap(),
        ("aGk=".to_string(), MetadataEntryType::Binary)
    );
    assert_eq!(convert_lore_metadata(&MetadataValue::Binary(vec![104])).unwrap().0, "aA==");
    assert_eq!(convert_lore_metadata(&MetadataValue::Binary(vec![104, 105, 33])).unwrap().0, "aGkh");
    assert_eq!(convert_lore_metadata(&MetadataValue::Binary(vec![])).unwrap().0, "");
}

#[test]
fn base64_uses_the_standard_alphabet_and_padding() {
    assert_eq!(base64_text(&[0xfb, 0xff]), "+/8=");
    assert_eq!(base64_text(&[0, 0, 0]), "AAAA");
    assert_eq!(base64_text(b"Man"), "TWFu");
    assert_eq!(base64_text(b"Ma"), "TWE=");
    assert_eq!(base64_text(b"M"), "TQ==");
    assert_eq!(base64_text(b"any carnal pleasure."), "YW55IGNhcm5hbCBwbGVhc3VyZS4=");
    assert_eq!(base64_text(&[0x00, 0x10, 0x83, 0x10, 0x51, 0x87, 0x20, 0x92, 0x8b, 0x30, 0xd3, 0x8f]), "ABCDEFGHIJKLMNOP");
    assert_eq!(base64_text(&[0xd3, 0x5d, 0xb7, 0xe3, 0x9e, 0xbb, 0xf3, 0xdf, 0xbf]), "0123456789+/");
}
