//! `file hash`: the content hashes of files.
use vstd::prelude::*;
use crate::error::Result;
use crate::events::{
    check_stream, is_stream_failure, lemma_fold_step, lemma_take_all, of_kind, EventKind, EventStream, LoreEvent,
};

verus! {

/// Arguments of `file hash`.
#[derive(Debug, Clone)]
pub struct FileHashArgs {
    pub paths: Vec<String>,
}

/// The engine's arguments of `file hash`.
#[derive(Debug)]
pub struct LoreFileHashArgs {
    pub paths: Vec<String>,
}

impl FileHashArgs {
    /// The engine's arguments; the paths are passed as given.
    pub fn into_lore(self) -> (r: LoreFileHashArgs)
        ensures
            r.paths == self.paths,
    {
        LoreFileHashArgs { paths: self.paths }
    }
}

/// The hash of one file.
#[derive(Debug, Clone)]
pub struct FileHashEntry {
    pub path: String,
    pub size: u64,
    pub hash: String,
}

/// The hashes of the files.
#[derive(Debug, Clone)]
pub struct FileHashResult {
    pub files: Vec<FileHashEntry>,
}

/// True when `x` is the hash that event `e` reports.
pub open spec fn hash_entry_of(x: FileHashEntry, e: LoreEvent) -> bool {
    e matches LoreEvent::FileHash(d) && x.path == d.path && x.size == d.size && x.hash == d.hash
}

/// True when `xs` are the hashes that `evs` report, in order.
pub open spec fn hash_entries_of(xs: Seq<FileHashEntry>, evs: Seq<LoreEvent>) -> bool {
    xs.len() == evs.len() && forall|j: int| 0 <= j < evs.len() ==> hash_entry_of(#[trigger] xs[j], evs[j])
}

/// The result of `file hash`, read off its event stream: one hash per
/// `FileHash` event.
pub fn hash_from_events(stream: &EventStream, status: &str) -> (r: Result<FileHashResult>)
    ensures
        !stream.ok ==> is_stream_failure(r, *stream, "file hash"@, status@),
        stream.ok ==> (r matches Ok(res) && hash_entries_of(res.files@, of_kind(stream.events@, EventKind::FileHash))),
{
    if let Err(e) = check_stream(stream, "file hash", status) {
        return Err(e);
    }
    let ghost evs = stream.events@;
    let mut files: Vec<FileHashEntry> = Vec::new();
    let mut i: usize = 0;
    while i < stream.events.len()
        invariant
            i <= stream.events.len(),
            evs == stream.events@,
            hash_entries_of(files@, of_kind(evs.take(i as int), EventKind::FileHash)),
        decreases stream.events.len() - i,
    {
        proof {
            lemma_fold_step(evs, EventKind::FileHash, i as int);
        }
        if let LoreEvent::FileHash(d) = &stream.events[i] {
            files.push(FileHashEntry { path: d.path.clone(), size: d.size, hash: d.hash.clone() });
        }
        i += 1;
    }
    proof {
        lemma_take_all(evs);
    }
    Ok(FileHashResult { files })
}

} // verus!
