//! `dependency list`: lists the dependencies of files in the repository.
//!
//! The engine reports a listing as `FileDependencyListBegin` with the number
//! of files, then for each file `FileDependencyListFile`, its
//! `FileDependencyListEntry` events and `FileDependencyListFileEnd`, and
//! finally `FileDependencyListEnd` with the total number of entries. The
//! result groups the entries under the file that announced them.
use vstd::prelude::*;
use crate::error::Result;
use crate::events::{
    check_stream, copy_strings, event_path, is_stream_failure, last_of_kind, of_kind, DependencyListEntryData, EventKind,
    EventStream, LoreEvent,
};
use crate::global::{flag, flag_of};
use crate::paths::{resolved, resolve_paths};

verus! {

/// Arguments of a dependency listing.
#[derive(Debug, Clone)]
pub struct DependencyListArgs {
    /// Files whose dependencies are listed, relative to the repository root
    /// or absolute.
    pub paths: Vec<String>,
    /// Revision to list at; empty for the current one.
    pub revision: String,
    /// Follow dependencies of dependencies.
    pub recursive: bool,
    /// List the files that depend on each path instead.
    pub reverse: bool,
    /// Only dependencies carrying one of these tags; empty for all.
    pub tags: Vec<String>,
    /// How deep a recursive listing goes; 0 for no limit.
    pub depth_limit: u32,
}

/// The engine's arguments of a dependency listing.
#[derive(Debug)]
pub struct LoreFileDependencyListArgs {
    pub paths: Vec<String>,
    pub revision: String,
    pub recursive: u8,
    pub reverse: u8,
    pub tags: Vec<String>,
    pub depth_limit: u32,
}

impl DependencyListArgs {
    /// The engine's arguments, with every path resolved against `repo_root`.
    pub fn into_lore(self, repo_root: &str) -> (r: LoreFileDependencyListArgs)
        ensures
            r.paths.len() == self.paths.len(),
            forall|i: int| 0 <= i < self.paths.len() ==> #[trigger] r.paths[i]@ == resolved(repo_root@, self.paths[i]@),
            r.revision == self.revision,
            r.recursive == flag(self.recursive),
            r.reverse == flag(self.reverse),
            r.tags == self.tags,
            r.depth_limit == self.depth_limit,
    {
        LoreFileDependencyListArgs {
            paths: resolve_paths(repo_root, &self.paths),
            revision: self.revision,
            recursive: flag_of(self.recursive),
            reverse: flag_of(self.reverse),
            tags: self.tags,
            depth_limit: self.depth_limit,
        }
    }
}

/// One dependency of a file.
#[derive(Debug, Clone)]
pub struct DependencyEntry {
    pub path: String,
    pub tags: Vec<String>,
    pub depth: u32,
}

/// A file and its dependencies.
#[derive(Debug, Clone)]
pub struct FileDependencies {
    pub path: String,
    pub entries: Vec<DependencyEntry>,
}

/// The result of a dependency listing.
#[derive(Debug, Clone)]
pub struct DependencyListResult {
    /// The number of files the engine announced.
    pub file_count: u64,
    pub files: Vec<FileDependencies>,
    /// The number of entries the engine announced.
    pub total_entry_count: u64,
}

/// A dependency entry as a value.
pub struct DependencyEntryView {
    pub path: String,
    pub tags: Seq<String>,
    pub depth: u32,
}

/// A file and its dependencies as a value.
#[verifier::ext_equal]
pub struct FileDependenciesView {
    pub path: String,
    pub entries: Seq<DependencyEntryView>,
}

/// A dependency listing as a value.
#[verifier::ext_equal]
pub struct DependencyListView {
    pub file_count: u64,
    pub files: Seq<FileDependenciesView>,
    pub total_entry_count: u64,
}

impl View for DependencyEntry {
    type V = DependencyEntryView;

    open spec fn view(&self) -> DependencyEntryView {
        DependencyEntryView { path: self.path, tags: self.tags@, depth: self.depth }
    }
}

impl View for FileDependencies {
    type V = FileDependenciesView;

    open spec fn view(&self) -> FileDependenciesView {
        FileDependenciesView {
            path: self.path,
            entries: self.entries@.map_values(|e: DependencyEntry| e@),
        }
    }
}

impl View for DependencyListResult {
    type V = DependencyListView;

    open spec fn view(&self) -> DependencyListView {
        DependencyListView {
            file_count: self.file_count,
            files: self.files@.map_values(|f: FileDependencies| f@),
            total_entry_count: self.total_entry_count,
        }
    }
}

/// Where a listing stands after some of its events: the files closed so far,
/// the file whose entries are arriving, and the two announced counts.
pub struct DependencyListState {
    pub files: Seq<FileDependenciesView>,
    pub current: Option<FileDependenciesView>,
    pub file_count: u64,
    pub total_entry_count: u64,
}

/// The entry an entry event reports.
pub open spec fn entry_of(d: DependencyListEntryData) -> DependencyEntryView {
    DependencyEntryView { path: d.path, tags: d.tags@, depth: d.depth }
}

/// `files` with `current` appended when there is one.
pub open spec fn closed_files(files: Seq<FileDependenciesView>, current: Option<FileDependenciesView>) -> Seq<FileDependenciesView> {
    match current {
        Some(f) => files.push(f),
        None => files,
    }
}

/// The state of a listing that has seen no event.
pub open spec fn listing_start() -> DependencyListState {
    DependencyListState { files: Seq::empty(), current: None, file_count: 0, total_entry_count: 0 }
}

/// One event applied to a listing: a file event closes the open file and
/// opens a new one; an entry joins the open file (and is dropped when none
/// is open); a file end closes the open file; the begin and end events set
/// the counts; every other event changes nothing.
pub open spec fn listing_step(s: DependencyListState, e: LoreEvent) -> DependencyListState {
    match e {
        LoreEvent::FileDependencyListBegin(d) => DependencyListState {
            files: s.files,
            current: s.current,
            file_count: d.count,
            total_entry_count: s.total_entry_count,
        },
        LoreEvent::FileDependencyListFile(d) => DependencyListState {
            files: closed_files(s.files, s.current),
            current: Some(FileDependenciesView { path: d.path, entries: Seq::empty() }),
            file_count: s.file_count,
            total_entry_count: s.total_entry_count,
        },
        LoreEvent::FileDependencyListEntry(d) => match s.current {
            Some(f) => DependencyListState {
                files: s.files,
                current: Some(FileDependenciesView { path: f.path, entries: f.entries.push(entry_of(d)) }),
                file_count: s.file_count,
                total_entry_count: s.total_entry_count,
            },
            None => s,
        },
        LoreEvent::FileDependencyListFileEnd => DependencyListState {
            files: closed_files(s.files, s.current),
            current: None,
            file_count: s.file_count,
            total_entry_count: s.total_entry_count,
        },
        LoreEvent::FileDependencyListEnd(d) => DependencyListState {
            files: s.files,
            current: s.current,
            file_count: s.file_count,
            total_entry_count: d.count,
        },
        _ => s,
    }
}

/// The state of a listing after all of `evs`, in order.
pub open spec fn listing_after(evs: Seq<LoreEvent>) -> DependencyListState
    decreases evs.len(),
{
    if evs.len() == 0 {
        listing_start()
    } else {
        listing_step(listing_after(evs.drop_last()), evs.last())
    }
}

/// The listing `evs` report: every file closed, the last one included even
/// when its end event never came.
pub open spec fn listing_of(evs: Seq<LoreEvent>) -> DependencyListView {
    let s = listing_after(evs);
    DependencyListView {
        file_count: s.file_count,
        files: closed_files(s.files, s.current),
        total_entry_count: s.total_entry_count,
    }
}

/// True when the groups `fs` are the ones the file events `opened` announced:
/// one per event, in order, each under the path its event named.
pub open spec fn groups_follow(fs: Seq<FileDependenciesView>, opened: Seq<LoreEvent>) -> bool {
    fs.len() == opened.len() && forall|i: int| 0 <= i < fs.len() ==> Some(#[trigger] fs[i].path) == event_path(opened[i])
}

/// Every file a listing announces appears in its result, once, in order,
/// under the path announced, also when its end event never came.
pub proof fn lemma_every_announced_file_listed(evs: Seq<LoreEvent>)
    ensures
        groups_follow(listing_of(evs).files, of_kind(evs, EventKind::FileDependencyListFile)),
    decreases evs.len(),
{
    if evs.len() > 0 {
        let prev = evs.drop_last();
        lemma_every_announced_file_listed(prev);
        let s = listing_after(prev);
        let c = closed_files(s.files, s.current);
        let o = of_kind(prev, EventKind::FileDependencyListFile);
        let e = evs.last();
        let t = listing_step(s, e);
        let c2 = closed_files(t.files, t.current);
        let o2 = of_kind(evs, EventKind::FileDependencyListFile);
        match e {
            LoreEvent::FileDependencyListFile(d) => {
                assert(o2 == o.push(e));
                assert(c2 == c.push(FileDependenciesView { path: d.path, entries: Seq::empty() }));
                assert forall|i: int| 0 <= i < c2.len() implies Some(#[trigger] c2[i].path) == event_path(o2[i]) by {
                    if i < c.len() {
                        assert(c2[i] == c[i]);
                        assert(o2[i] == o[i]);
                    }
                }
            },
            LoreEvent::FileDependencyListEntry(d) => {
                assert(o2 == o);
                assert forall|i: int| 0 <= i < c2.len() implies Some(#[trigger] c2[i].path) == event_path(o2[i]) by {
                    assert(c2[i].path == c[i].path);
                }
            },
            _ => {
                assert(o2 == o);
                assert(c2 == c);
            },
        }
    }
}

/// The two counts a listing reports are the ones the engine announced: the
/// file count of the last begin event and the entry total of the last end
/// event, each zero when its event never came.
pub proof fn lemma_listing_counts_are_announced(evs: Seq<LoreEvent>)
    ensures
        last_of_kind(evs, EventKind::FileDependencyListBegin) matches Some(LoreEvent::FileDependencyListBegin(d))
            ==> listing_of(evs).file_count == d.count,
        last_of_kind(evs, EventKind::FileDependencyListBegin) is None ==> listing_of(evs).file_count == 0,
        last_of_kind(evs, EventKind::FileDependencyListEnd) matches Some(LoreEvent::FileDependencyListEnd(d))
            ==> listing_of(evs).total_entry_count == d.count,
        last_of_kind(evs, EventKind::FileDependencyListEnd) is None ==> listing_of(evs).total_entry_count == 0,
    decreases evs.len(),
{
    if evs.len() > 0 {
        lemma_listing_counts_are_announced(evs.drop_last());
    }
}

/// The view of a list of files.
pub open spec fn file_views(fs: Seq<FileDependencies>) -> Seq<FileDependenciesView> {
    fs.map_values(|f: FileDependencies| f@)
}

/// The entry an entry event reports.
fn entry_from(d: &DependencyListEntryData) -> (r: DependencyEntry)
    ensures
        r@ == entry_of(*d),
{
    DependencyEntry { path: d.path.clone(), tags: copy_strings(&d.tags), depth: d.depth }
}

/// The result of a dependency listing, read off its event stream.
pub fn dependency_list_from_events(stream: &EventStream, status: &str) -> (r: Result<DependencyListResult>)
    ensures
        !stream.ok ==> is_stream_failure(r, *stream, "dependency_list"@, status@),
        stream.ok ==> (r matches Ok(res) && res@ == listing_of(stream.events@)),
{
    if let Err(e) = check_stream(stream, "dependency_list", status) {
        return Err(e);
    }
    let ghost evs = stream.events@;
    let mut files: Vec<FileDependencies> = Vec::new();
    let mut current: Option<FileDependencies> = None;
    let mut file_count: u64 = 0;
    let mut total_entry_count: u64 = 0;
    let mut i: usize = 0;
    while i < stream.events.len()
        invariant
            i <= stream.events.len(),
            evs == stream.events@,
            ({
                let s = listing_after(evs.take(i as int));
                &&& file_views(files@) == s.files
                &&& (match current {
                    Some(f) => s.current == Some(f@),
                    None => s.current is None,
                })
                &&& file_count == s.file_count
                &&& total_entry_count == s.total_entry_count
            }),
        decreases stream.events.len() - i,
    {
        proof {
            assert(evs.take(i + 1).drop_last() =~= evs.take(i as int));
            assert(evs.take(i + 1).last() == evs[i as int]);
        }
        match &stream.events[i] {
            LoreEvent::FileDependencyListBegin(d) => {
                file_count = d.count;
            },
            LoreEvent::FileDependencyListFile(d) => {
                let prev = current.take();
                if let Some(f) = prev {
                    proof {
                        assert(file_views(files@.push(f)) =~= file_views(files@).push(f@));
                    }
                    files.push(f);
                }
                current = Some(FileDependencies { path: d.path.clone(), entries: Vec::new() });
                proof {
                    assert(current.unwrap()@.entries =~= Seq::<DependencyEntryView>::empty());
                }
            },
            LoreEvent::FileDependencyListEntry(d) => {
                let open = current.take();
                if let Some(mut f) = open {
                    let e = entry_from(d);
                    let ghost before = f@;
                    f.entries.push(e);
                    proof {
                        assert(f@.entries =~= before.entries.push(entry_of(*d)));
                    }
                    current = Some(f);
                }
            },
            LoreEvent::FileDependencyListFileEnd => {
                let prev = current.take();
                if let Some(f) = prev {
                    proof {
                        assert(file_views(files@.push(f)) =~= file_views(files@).push(f@));
                    }
                    files.push(f);
                }
            },
            LoreEvent::FileDependencyListEnd(d) => {
                total_entry_count = d.count;
            },
            _ => {},
        }
        i += 1;
    }
    proof {
        assert(evs.take(evs.len() as int) =~= evs);
    }
    let last = current.take();
    if let Some(f) = last {
        proof {
            assert(file_views(files@.push(f)) =~= file_views(files@).push(f@));
        }
        files.push(f);
    }
    let res = DependencyListResult { file_count, files, total_entry_count };
    proof {
        assert(res@.files =~= file_views(res.files@));
    }
    Ok(res)
}

} // verus!
