//! `file dump`: the storage fragments of a file.
use vstd::prelude::*;
use crate::error::Result;
use crate::events::{
    check_stream, is_stream_failure, lemma_fold_step, lemma_take_all, of_kind, EventKind, EventStream, LoreEvent,
};
use crate::paths::{resolved, resolve_path};

verus! {

/// Arguments of `file dump`: the file is named by address or by path.
#[derive(Debug, Clone)]
pub struct FileDumpArgs {
    pub address: String,
    /// The file, relative to the repository root or absolute.
    pub path: String,
}

/// The engine's arguments of `file dump`.
#[derive(Debug)]
pub struct LoreFileDumpArgs {
    pub address: String,
    pub path: String,
}

impl FileDumpArgs {
    /// The engine's arguments, with the path resolved against `repo_root`.
    pub fn into_lore(self, repo_root: &str) -> (r: LoreFileDumpArgs)
        ensures
            r.address == self.address,
            r.path@ == resolved(repo_root@, self.path@),
    {
        LoreFileDumpArgs { path: resolve_path(repo_root, self.path.as_str()), address: self.address }
    }
}

/// One stored fragment.
#[derive(Debug, Clone)]
pub struct FileDumpEntry {
    pub address: String,
    pub flags: u32,
    pub size_payload: u32,
    pub size_content: u64,
    pub match_made: bool,
}

/// The fragments of the file.
#[derive(Debug, Clone)]
pub struct FileDumpResult {
    pub entries: Vec<FileDumpEntry>,
}

/// True when `x` is the fragment that event `e` reports.
pub open spec fn dump_entry_of(x: FileDumpEntry, e: LoreEvent) -> bool {
    e matches LoreEvent::FileDump(d) && x.address == d.address && x.flags == d.flags
        && x.size_payload == d.size_payload && x.size_content == d.size_content
        && x.match_made == (d.match_made != 0)
}

/// True when `xs` are the fragments that `evs` report, in order.
pub open spec fn dump_entries_of(xs: Seq<FileDumpEntry>, evs: Seq<LoreEvent>) -> bool {
    xs.len() == evs.len() && forall|j: int| 0 <= j < evs.len() ==> dump_entry_of(#[trigger] xs[j], evs[j])
}

/// The result of `file dump`, read off its event stream: one fragment per
/// `FileDump` event.
pub fn dump_from_events(stream: &EventStream, status: &str) -> (r: Result<FileDumpResult>)
    ensures
        !stream.ok ==> is_stream_failure(r, *stream, "file dump"@, status@),
        stream.ok ==> (r matches Ok(res) && dump_entries_of(res.entries@, of_kind(stream.events@, EventKind::FileDump))),
{
    if let Err(e) = check_stream(stream, "file dump", status) {
        return Err(e);
    }
    let ghost evs = stream.events@;
    let mut entries: Vec<FileDumpEntry> = Vec::new();
    let mut i: usize = 0;
    while i < stream.events.len()
        invariant
            i <= stream.events.len(),
            evs == stream.events@,
            dump_entries_of(entries@, of_kind(evs.take(i as int), EventKind::FileDump)),
        decreases stream.events.len() - i,
    {
        proof {
            lemma_fold_step(evs, EventKind::FileDump, i as int);
        }
        if let LoreEvent::FileDump(d) = &stream.events[i] {
            entries.push(FileDumpEntry {
                address: d.address.clone(),
                flags: d.flags,
                size_payload: d.size_payload,
                size_content: d.size_content,
                match_made: d.match_made != 0,
            });
        }
        i += 1;
    }
    proof {
        lemma_take_all(evs);
    }
    Ok(FileDumpResult { entries })
}

} // verus!
