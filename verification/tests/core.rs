use lore_vm::api::LoreApi;
use lore_vm::cli_backend::{
    default_backend, extract_repo_id, extract_revision, parse_branches, parse_change_line, parse_log, parse_status,
    CliBackend,
};
use lore_vm::client_backend::{
    branches_view, create_branch_request, log_length, log_view, map_change_kind, push_request, stage_request,
    status_view, switch_branch_request, unstage_request, BranchListEntry,
    ClientBackend, RevisionHistoryEntry, StatusFileAction, StatusFileEntry, StatusRevision,
};
use lore_vm::error::LoreError;
use lore_vm::global::LoreGlobal;
use lore_vm::model::{ChangeKind, FileChange, RepoStatus};
use lore_vm::ops::file::stage::CaseChange;
use lore_vm::paths::resolve_path;
use lore_vm::text::{decimal_text, signed_decimal_text};

#[test]
fn paths_resolve_against_the_root() {
    assert_eq!(resolve_path("/repo", "a/b.txt"), "/repo/a/b.txt");
    assert_eq!(resolve_path("/repo/", "a"), "/repo/a");
    assert_eq!(resolve_path("", "a"), "a");
    assert_eq!(resolve_path("/repo", "/abs/x"), "/abs/x");
    assert_eq!(resolve_path("/repo", ""), "/repo/");
    let once = resolve_path("/repo", "x");
    assert_eq!(resolve_path("/repo", &once), once);
}

#[test]
fn paths_follow_the_unix_rules_of_std_path() {
    for (root, p) in [("/repo", "a/b.txt"), ("/repo/", "a"), ("/repo", "/abs/x"), ("/repo", ""), ("/r", r"C:\work\a.txt")] {
        let expected = std::path::Path::new(root).join(p);
        assert_eq!(resolve_path(root, p), expected.to_str().unwrap());
    }
    assert_eq!(resolve_path("/r", r"C:\work\a.txt"), r"/r/C:\work\a.txt");
}

#[test]
fn numbers_print_in_decimal() {
    assert_eq!(decimal_text(0), "0");
    assert_eq!(decimal_text(18446744073709551615), "18446744073709551615");
    assert_eq!(signed_decimal_text(-1), "-1");
    assert_eq!(signed_decimal_text(-9223372036854775808), "-9223372036854775808");
}

#[test]
fn error_texts_carry_their_kind() {
    assert_eq!(LoreError::CliUnavailable("x".into()).to_text(), "lore CLI not found or failed to launch: x");
    assert_eq!(LoreError::CommandFailed("x".into()).to_text(), "lore command failed: x");
    assert_eq!(LoreError::Parse("x".into()).to_text(), "could not parse lore output: x");
    assert_eq!(LoreError::NoRepository("x".into()).to_text(), "no Lore repository at the configured path: x");
    assert_eq!(LoreError::Client("x".into()).to_text(), "lore client error: x");
    assert_eq!(LoreError::Client("y".into()).message(), "y");
}

#[test]
fn global_defaults_and_builders() {
    let g = LoreGlobal::new("/repo".into()).identity("me".into()).offline(true).max_connections(4);
    assert_eq!(g.identity, "me");
    assert!(g.offline);
    assert!(!g.force);
    assert_eq!(g.max_connections, 4);
    let built = g.build();
    assert_eq!(built.repository_path, "/repo");
    assert_eq!(built.offline, 1);
    assert_eq!(built.force, 0);
    assert_eq!(built.search_limit, 100);
    assert_eq!(built.max_connections, 4);
    let api = LoreApi::new("/r".into());
    assert_eq!(api.globals().max_connections, 8);
}

#[test]
fn staged_and_unstaged_partition_the_changes() {
    let mut st = RepoStatus::default();
    st.changes.push(FileChange { path: "a".into(), kind: ChangeKind::Added, staged: true });
    st.changes.push(FileChange { path: "b".into(), kind: ChangeKind::Modified, staged: false });
    st.changes.push(FileChange { path: "c".into(), kind: ChangeKind::Deleted, staged: true });
    let staged: Vec<String> = st.staged().into_iter().map(|c| c.path).collect();
    let unstaged: Vec<String> = st.unstaged().into_iter().map(|c| c.path).collect();
    assert_eq!(staged, vec!["a".to_string(), "c".to_string()]);
    assert_eq!(unstaged, vec!["b".to_string()]);
}

#[test]
fn status_text_parses_branch_revision_and_changes() {
    let raw = "branch: main\nrevision: abc123\nStaged changes:\n  A  new.txt\n\nUnstaged changes:\n  M  old.txt\n  ? junk\n";
    let st = parse_status(raw).unwrap();
    assert_eq!(st.branch, "main");
    assert_eq!(st.revision, "abc123");
    assert_eq!(st.changes.len(), 3);
    assert!(st.changes[0].staged);
    assert_eq!(st.changes[0].kind, ChangeKind::Added);
    assert_eq!(st.changes[1].path, "old.txt");
    assert!(!st.changes[1].staged);
    assert_eq!(st.changes[2].kind, ChangeKind::Untracked);
    match parse_status("nothing useful") {
        Err(LoreError::Parse(m)) => assert_eq!(m, "unrecognized `lore status` output:\nnothing useful"),
        other => panic!("unexpected {other:?}"),
    }
}

#[test]
fn change_lines_need_a_known_marker() {
    let c = parse_change_line("renamed a.txt", false).unwrap();
    assert_eq!(c.kind, ChangeKind::Renamed);
    assert_eq!(c.path, "a.txt");
    assert!(parse_change_line("X a.txt", true).is_none());
    assert!(parse_change_line("A", true).is_none());
}

#[test]
fn log_text_parses_blocks_with_a_hash() {
    let raw = "revision abc\nAuthor: ana\nDate: 2024-01-01\nParent: p0\nfirst line\nsecond line\n\nno hash here\n\ncommit def\nmsg";
    let revs = parse_log(raw);
    assert_eq!(revs.len(), 2);
    assert_eq!(revs[0].hash, "abc");
    assert_eq!(revs[0].author, "ana");
    assert_eq!(revs[0].parent, Some("p0".to_string()));
    assert_eq!(revs[0].message, "first line");
    assert_eq!(revs[1].hash, "def");
    assert_eq!(revs[1].message, "msg");
}

#[test]
fn branch_text_marks_the_current_branch() {
    let bs = parse_branches("* main\n  topic\n\n*\n");
    assert_eq!(bs.len(), 2);
    assert_eq!(bs[0].name, "main");
    assert!(bs[0].is_current);
    assert_eq!(bs[1].name, "topic");
    assert!(!bs[1].is_current);
}

#[test]
fn printed_ids_are_extracted() {
    assert_eq!(extract_revision("done\n  revision r42 \n"), Some("r42".to_string()));
    assert_eq!(extract_revision("nothing"), None);
    assert_eq!(extract_repo_id("Created repository with ID  xyz "), Some("xyz".to_string()));
    assert_eq!(extract_repo_id("no id"), None);
}

#[test]
fn cli_failures_name_the_command() {
    let b = CliBackend::new("/w".into(), None);
    assert_eq!(b.program(), "lore");
    let args = CliBackend::stage_args(&vec!["a".to_string(), "b".to_string()]);
    assert_eq!(args, vec!["stage".to_string(), "a".to_string(), "b".to_string()]);
    match b.finish_run(&args, false, Some(2), String::new(), "  oops \n") {
        Err(LoreError::CommandFailed(m)) => assert_eq!(m, "`lore stage a b` exited 2: oops"),
        other => panic!("unexpected {other:?}"),
    }
    assert_eq!(b.finish_run(&args, true, Some(0), "out".into(), "").unwrap(), "out");
    match b.launch_failure("not found") {
        LoreError::CliUnavailable(m) => assert_eq!(m, "lore: not found"),
        other => panic!("unexpected {other:?}"),
    }
    let custom = default_backend("/w".into(), Some("/opt/lore".into()));
    assert_eq!(custom.program(), "/opt/lore");
}

#[test]
fn client_backend_maps_status_log_and_branches() {
    assert_eq!(map_change_kind(StatusFileAction::Copy), ChangeKind::Renamed);
    assert_eq!(map_change_kind(StatusFileAction::Keep), ChangeKind::Modified);
    let files = vec![StatusFileEntry { path: "a".into(), action: StatusFileAction::Add, staged: true }];
    let rev = StatusRevision { repository: "repo".into(), branch: "b-id".into(), branch_name: "".into(), revision: "r".into() };
    let st = status_view(&files, Some(rev));
    assert_eq!(st.branch, "b-id");
    assert_eq!(st.changes[0].kind, ChangeKind::Added);
    let st = status_view(&files, None);
    assert_eq!(st.repo_id, "");
    let log = log_view(&vec![RevisionHistoryEntry { revision: "r2".into(), parents: vec!["r1".into(), "r0".into()] }]);
    assert_eq!(log[0].parent, Some("r1".to_string()));
    assert_eq!(log_length(5), 5);
    let bs = branches_view(&vec![BranchListEntry { name: "main".into(), id: "1".into(), latest: "r".into(), is_current: true }]);
    assert_eq!(bs[0].latest_revision, "r");
    let req = stage_request(&vec!["p".to_string()]);
    assert!(req.scan);
    assert_eq!(req.case_change, CaseChange::Error);
    let backend = ClientBackend::new("/w".into());
    assert_eq!(backend.api().globals().repository_path, "/w");
}

#[test]
fn client_backend_requests_use_the_backend_defaults() {
    let u = unstage_request(&vec!["p".to_string()]);
    assert_eq!(u.paths, vec!["p".to_string()]);
    let c = create_branch_request("topic");
    assert_eq!(c.branch, "topic");
    assert!(c.category.is_empty() && c.id.is_empty());
    let s = switch_branch_request("topic");
    assert_eq!(s.branch, "topic");
    assert!(s.revision.is_empty() && !s.reset && !s.bare);
    let p = push_request();
    assert!(p.branch.is_empty() && !p.fast_forward_merge);
}
