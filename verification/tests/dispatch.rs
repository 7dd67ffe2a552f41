use std::collections::HashSet;
use lore_vm::dispatch::{
    args_error, is_benign_flush_failure, is_mutating_op, resolve_op, result_error, route, supported_ops, OpId,
};
use lore_vm::error::LoreError;

#[test]
fn supported_ops_has_no_duplicates() {
    let set: HashSet<_> = supported_ops().iter().collect();
    assert_eq!(set.len(), supported_ops().len(), "supported_ops() contains duplicate ids");
}

#[test]
fn every_supported_op_routes_to_itself() {
    for name in supported_ops() {
        let op = route(name).expect("listed op routes");
        assert_eq!(op.name(), *name);
    }
    assert_eq!(supported_ops().len(), 28);
}

#[test]
fn unknown_op_is_a_parse_error() {
    match resolve_op("nope.nothing") {
        Err(LoreError::Parse(m)) => assert_eq!(
            m,
            "unknown op `nope.nothing`; see lore_vm::supported_ops() for the dispatchable set"
        ),
        other => panic!("unexpected {other:?}"),
    }
    assert_eq!(resolve_op("file.stage").unwrap(), OpId::FileStage);
}

#[test]
fn mutating_ops_are_the_writers() {
    assert!(is_mutating_op("file.stage"));
    assert!(is_mutating_op("revision.commit"));
    assert!(is_mutating_op("lock.file_release"));
    assert!(!is_mutating_op("repository.status"));
    assert!(!is_mutating_op("file.diff"));
    assert!(!is_mutating_op("not.an.op"));
}

#[test]
fn benign_flush_failures_are_the_no_store_ones() {
    assert!(is_benign_flush_failure(&LoreError::NoRepository("x".into())));
    assert!(is_benign_flush_failure(&LoreError::CommandFailed("No Store Open at path".into())));
    assert!(is_benign_flush_failure(&LoreError::Client("NOT A REPOSITORY".into())));
    assert!(!is_benign_flush_failure(&LoreError::CommandFailed("write failed".into())));
    assert!(!is_benign_flush_failure(&LoreError::Parse("no store".into())));
}

#[test]
fn argument_and_result_errors_name_the_op() {
    match args_error("file.stage", "missing field") {
        LoreError::Parse(m) => assert_eq!(m, "could not parse args for `file.stage`: missing field"),
        other => panic!("unexpected {other:?}"),
    }
    match result_error("file.stage", "bad") {
        LoreError::Parse(m) => assert_eq!(m, "could not serialise result for `file.stage`: bad"),
        other => panic!("unexpected {other:?}"),
    }
}
