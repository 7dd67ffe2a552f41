use lore_vm::error::LoreError;
use lore_vm::events::{
    CountData, DependencyListEntryData, EventStream, LayerAddData, LinkEntryData, LoreEvent, PathData,
    StagedEntryData, AuthIdentityData,
};
use lore_vm::ops::auth::clear::clear_from_events;
use lore_vm::ops::auth::list::{list_from_events as auth_list_from_events, ListArgs};
use lore_vm::ops::dependency::dependency_add::{
    dependency_add_from_events, DependencyAddArgs, DependencyAddEntry, DependencyAddSource,
};
use lore_vm::ops::dependency::dependency_list::{dependency_list_from_events, DependencyListArgs};
use lore_vm::ops::layer::layer_add::{layer_add_from_events, LayerAddArgs};
use lore_vm::ops::layer::layer_list_staged::layer_list_staged_from_events;
use lore_vm::ops::layer::layer_remove::LayerRemoveArgs;
use lore_vm::ops::link::add::{add_from_events, default_source_path, AddArgs};
use lore_vm::ops::link::list::{list_from_events as link_list_from_events, LoreLinkListArgs};
use lore_vm::ops::link::remove::RemoveArgs;
use lore_vm::ops::link::update::UpdateArgs;

fn ok_stream(events: Vec<LoreEvent>) -> EventStream {
    EventStream { ok: true, error: None, events }
}

#[test]
fn args_into_lore_with_token() {
    let args = ListArgs { with_token: true };
    let lore_args = args.into_lore();
    assert_eq!(lore_args.with_token, 1);
}

#[test]
fn args_into_lore_without_token() {
    let args = ListArgs { with_token: false };
    let lore_args = args.into_lore();
    assert_eq!(lore_args.with_token, 0);
}

#[test]
fn args_into_lore_empty_tags() {
    let args = DependencyAddArgs {
        sources: vec![DependencyAddSource {
            path: "/foo.txt".into(),
            dependencies: vec![DependencyAddEntry { dependency: "/bar.txt".into(), tags: vec![] }],
        }],
        force: false,
    };
    let lore_args = args.into_lore("/repo");
    assert_eq!(lore_args.paths.len(), 1);
    assert_eq!(lore_args.dependencies.len(), 1);
    assert_eq!(lore_args.dep_counts.len(), 1);
    assert_eq!(lore_args.dep_counts.as_slice()[0], 1);
    assert_eq!(lore_args.tag_counts.len(), 1);
    assert_eq!(lore_args.tag_counts.as_slice()[0], 0);
    assert_eq!(lore_args.force, 0);
}

#[test]
fn args_into_lore_with_force() {
    let args = DependencyAddArgs {
        sources: vec![DependencyAddSource {
            path: "/foo.txt".into(),
            dependencies: vec![DependencyAddEntry { dependency: "/bar.txt".into(), tags: vec![] }],
        }],
        force: true,
    };
    let lore_args = args.into_lore("/repo");
    assert_eq!(lore_args.force, 1);
}

#[test]
fn args_into_lore_multiple_sources() {
    let args = DependencyAddArgs {
        sources: vec![
            DependencyAddSource {
                path: "/a.txt".into(),
                dependencies: vec![
                    DependencyAddEntry { dependency: "/b.txt".into(), tags: vec!["tag1".into()] },
                    DependencyAddEntry { dependency: "/c.txt".into(), tags: vec!["tag2".into(), "tag3".into()] },
                ],
            },
            DependencyAddSource { path: "/d.txt".into(), dependencies: vec![] },
        ],
        force: false,
    };
    let lore_args = args.into_lore("/repo");
    assert_eq!(lore_args.paths.len(), 2);
    assert_eq!(lore_args.dependencies.len(), 2);
    assert_eq!(lore_args.tags.len(), 3);
    assert_eq!(lore_args.dep_counts.as_slice(), &[2, 0]);
    assert_eq!(lore_args.tag_counts.as_slice(), &[1, 2]);
}

#[test]
fn args_converts_to_lore() {
    let args = DependencyListArgs {
        paths: vec!["a.txt".into(), "b.txt".into()],
        revision: "main".into(),
        recursive: true,
        reverse: false,
        tags: vec!["texture".into()],
        depth_limit: 3,
    };
    let lore_args = args.into_lore("/repo");
    assert_eq!(lore_args.paths.as_slice().len(), 2);
    assert_eq!(lore_args.revision.as_str(), "main");
    assert_eq!(lore_args.recursive, 1);
    assert_eq!(lore_args.reverse, 0);
    assert_eq!(lore_args.tags.as_slice().len(), 1);
    assert_eq!(lore_args.depth_limit, 3);
}

#[test]
fn layer_add_args_into_lore_conversion() {
    let args = LayerAddArgs {
        target_path: "/layers/assets".into(),
        source_repository: "https://example.com/repo".into(),
        source_path: "/".into(),
        metadata: "branch".into(),
    };
    let lore_args = args.into_lore("/repo");
    assert_eq!(lore_args.target_path.as_str(), "/layers/assets");
    assert_eq!(lore_args.source_repository.as_str(), "https://example.com/repo");
    assert_eq!(lore_args.source_path.as_str(), "/");
    assert_eq!(lore_args.metadata.as_str(), "branch");
}

#[test]
fn layer_remove_args_into_lore_conversion() {
    let args = LayerRemoveArgs {
        target_path: "/layer".into(),
        source_repository: "https://example.com/repo".into(),
        purge: true,
    };
    let lore_args = args.into_lore();
    assert_eq!(lore_args.target_path.as_str(), "/layer");
    assert_eq!(lore_args.source_repository.as_str(), "https://example.com/repo");
    assert_eq!(lore_args.purge, 1);
}

#[test]
fn add_args_into_lore_conversion() {
    let args = AddArgs {
        link: "https://example.com/repo".into(),
        link_path: "deps/external".into(),
        source_path: "/".into(),
        pin: "main".into(),
        disable_branching: true,
    };
    let lore_args = args.into_lore();
    assert_eq!(lore_args.link.as_str(), "https://example.com/repo");
    assert_eq!(lore_args.link_path.as_str(), "deps/external");
    assert_eq!(lore_args.source_path.as_str(), "/");
    assert_eq!(lore_args.pin.as_str(), "main");
    assert_eq!(lore_args.disable_branching, 1);
}

#[test]
fn add_args_disable_branching_false() {
    let args = AddArgs {
        link: "repo".into(),
        link_path: "path".into(),
        source_path: "/".into(),
        pin: "".into(),
        disable_branching: false,
    };
    let lore_args = args.into_lore();
    assert_eq!(lore_args.disable_branching, 0);
}

#[test]
fn source_path_default_is_slash() {
    let args = AddArgs {
        link: "repo".into(),
        link_path: "path".into(),
        source_path: "/".into(),
        pin: "".into(),
        disable_branching: false,
    };
    assert_eq!(args.source_path, "/");
}

#[test]
fn link_entry_args_is_empty() {
    let _args = LoreLinkListArgs {};
}

#[test]
fn remove_args_into_lore_conversion() {
    let args = RemoveArgs { link_path: "deps/external".into() };
    let lore_args = args.into_lore("/repo");
    assert_eq!(lore_args.link_path.as_str(), "/repo/deps/external");
}

#[test]
fn update_args_into_lore_conversion() {
    let args = UpdateArgs { link_path: "deps/external".into(), pin: "v2.0".into() };
    let lore_args = args.into_lore();
    assert_eq!(lore_args.link_path.as_str(), "deps/external");
    assert_eq!(lore_args.pin.as_str(), "v2.0");
}

#[test]
fn default_source_path_is_the_root() {
    assert_eq!(default_source_path(), "/");
}

#[test]
fn clear_reports_only_success_or_failure() {
    assert!(clear_from_events(&ok_stream(vec![LoreEvent::Other]), "0").is_ok());
    match clear_from_events(&EventStream { ok: false, error: None, events: vec![] }, "3") {
        Err(LoreError::CommandFailed(m)) => assert_eq!(m, "clear failed with status 3"),
        other => panic!("unexpected {other:?}"),
    }
}

#[test]
fn auth_list_counts_identities() {
    let id = |u: &str| {
        LoreEvent::AuthIdentity(AuthIdentityData {
            auth_url: "https://auth".into(),
            resource: "res".into(),
            user_id: u.into(),
            authorized_domains: "example.com".into(),
            expires: 5,
            token: "".into(),
        })
    };
    let r = auth_list_from_events(&ok_stream(vec![id("a"), LoreEvent::Other, id("b")]), "0").unwrap();
    assert_eq!(r.identity_count, 2);
    assert_eq!(r.identities[1].user_id, "b");
}

#[test]
fn dependency_add_reads_first_end_count() {
    let r = dependency_add_from_events(
        &ok_stream(vec![LoreEvent::FileDependencyAddEnd(CountData { count: 4 })]),
        "0",
    )
    .unwrap();
    assert_eq!(r.added_count, 4);
    match dependency_add_from_events(&ok_stream(vec![]), "0") {
        Err(LoreError::Parse(m)) => {
            assert_eq!(m, "dependency_add succeeded but no FileDependencyAddEnd event emitted")
        },
        other => panic!("unexpected {other:?}"),
    }
}

#[test]
fn dependency_list_groups_entries_and_flushes_unclosed_file() {
    let entry = |p: &str, d: u32| {
        LoreEvent::FileDependencyListEntry(DependencyListEntryData { path: p.into(), tags: vec!["t".into()], depth: d })
    };
    let stream = ok_stream(vec![
        LoreEvent::FileDependencyListBegin(CountData { count: 2 }),
        entry("orphan", 0),
        LoreEvent::FileDependencyListFile(PathData { path: "a.fbx".into() }),
        entry("tex_a.png", 0),
        entry("tex_b.png", 1),
        LoreEvent::FileDependencyListFileEnd,
        LoreEvent::FileDependencyListFile(PathData { path: "b.fbx".into() }),
        entry("tex_c.png", 0),
        LoreEvent::FileDependencyListEnd(CountData { count: 3 }),
    ]);
    let r = dependency_list_from_events(&stream, "0").unwrap();
    assert_eq!(r.file_count, 2);
    assert_eq!(r.total_entry_count, 3);
    assert_eq!(r.files.len(), 2);
    assert_eq!(r.files[0].path, "a.fbx");
    assert_eq!(r.files[0].entries.len(), 2);
    assert_eq!(r.files[0].entries[1].depth, 1);
    assert_eq!(r.files[1].path, "b.fbx");
    assert_eq!(r.files[1].entries[0].path, "tex_c.png");
    assert_eq!(r.files[1].entries[0].tags, vec!["t".to_string()]);
}

#[test]
fn layer_add_echoes_the_request_without_an_event() {
    let req = || LayerAddArgs {
        target_path: "layers/a".into(),
        source_repository: "repo".into(),
        source_path: "/".into(),
        metadata: "m".into(),
    };
    let r = layer_add_from_events(req(), &ok_stream(vec![]), "0").unwrap();
    assert_eq!(r.target_path, "layers/a");
    assert_eq!(r.revision, "");
    let ev = LoreEvent::LayerAdd(LayerAddData {
        target_path: "/repo/layers/a".into(),
        source_repository: "repo-id".into(),
        source_path: "/".into(),
        metadata: "m".into(),
        revision: "r1".into(),
    });
    let r = layer_add_from_events(req(), &ok_stream(vec![ev]), "0").unwrap();
    assert_eq!(r.target_path, "/repo/layers/a");
    assert_eq!(r.revision, "r1");
}

#[test]
fn layer_list_staged_reads_entries() {
    let ev = LoreEvent::LayerStagedEntry(StagedEntryData {
        path: "layers/a".into(),
        repository: "repo".into(),
        staged_file_count: 3,
    });
    let r = layer_list_staged_from_events(&ok_stream(vec![ev]), "0").unwrap();
    assert_eq!(r.entries[0].target_path, "layers/a");
    assert_eq!(r.entries[0].staged_file_count, 3);
}

#[test]
fn link_add_needs_a_link_change() {
    assert_eq!(add_from_events("deps".into(), &ok_stream(vec![LoreEvent::LinkChange]), "0").unwrap().link_path, "deps");
    match add_from_events("deps".into(), &ok_stream(vec![]), "0") {
        Err(LoreError::Parse(m)) => assert_eq!(m, "link add succeeded but no LinkChange event emitted"),
        other => panic!("unexpected {other:?}"),
    }
}

#[test]
fn link_list_counts_links() {
    let ev = LoreEvent::LinkEntry(LinkEntryData {
        link_path: "deps".into(),
        link: "l".into(),
        source_node: "s".into(),
        link_node: "n".into(),
    });
    let r = link_list_from_events(&ok_stream(vec![ev]), "0").unwrap();
    assert_eq!(r.link_count, 1);
    assert_eq!(r.links[0].link_path, "deps");
}
