//! `file info`: what the repository records about files.
use vstd::prelude::*;
use crate::error::Result;
use crate::events::{
    check_stream, is_stream_failure, lemma_fold_step, lemma_take_all, of_kind, EventKind, EventStream,
    FileInfoData, LoreEvent,
};
use crate::global::{flag, flag_of};

verus! {

/// Arguments of `file info`.
#[derive(Debug, Clone)]
pub struct FileInfoArgs {
    pub paths: Vec<String>,
    /// The revision; empty for the current one.
    pub revision: String,
    /// Also report the working-tree state.
    pub local: bool,
    /// Report sizes after filters.
    pub filtered: bool,
}

/// The engine's arguments of `file info`.
#[derive(Debug)]
pub struct LoreFileInfoArgs {
    pub paths: Vec<String>,
    pub revision: String,
    pub local: u8,
    pub filtered: u8,
}

impl FileInfoArgs {
    /// The engine's arguments; the paths are passed as given.
    pub fn into_lore(self) -> (r: LoreFileInfoArgs)
        ensures
            r.paths == self.paths,
            r.revision == self.revision,
            r.local == flag(self.local),
            r.filtered == flag(self.filtered),
    {
        LoreFileInfoArgs {
            paths: self.paths,
            revision: self.revision,
            local: flag_of(self.local),
            filtered: flag_of(self.filtered),
        }
    }
}

/// What the repository records about one file.
#[derive(Debug, Clone)]
pub struct FileInfoEntry {
    pub path: String,
    pub context: String,
    pub hash: String,
    pub is_file: bool,
    pub is_dir: bool,
    pub flag_modified: bool,
    pub flag_deleted: bool,
    pub flag_added: bool,
    pub flag_conflict: bool,
    pub mode: u16,
    pub size: u64,
    pub local_size: u64,
    pub local_hash: String,
    pub filter_size: u64,
}

/// What the repository records about the files.
#[derive(Debug, Clone)]
pub struct FileInfoResult {
    pub entries: Vec<FileInfoEntry>,
}

/// True when `x` is what `d` reports.
pub open spec fn info_of(x: FileInfoEntry, d: FileInfoData) -> bool {
    &&& x.path == d.path
    &&& x.context == d.context
    &&& x.hash == d.hash
    &&& x.is_file == (d.is_file != 0)
    &&& x.is_dir == (d.is_dir != 0)
    &&& x.flag_modified == (d.flag_modified != 0)
    &&& x.flag_deleted == (d.flag_deleted != 0)
    &&& x.flag_added == (d.flag_added != 0)
    &&& x.flag_conflict == (d.flag_conflict != 0)
    &&& x.mode == d.mode
    &&& x.size == d.size
    &&& x.local_size == d.local_size
    &&& x.local_hash == d.local_hash
    &&& x.filter_size == d.filter_size
}

/// True when `x` is what event `e` reports.
pub open spec fn info_entry_of(x: FileInfoEntry, e: LoreEvent) -> bool {
    e matches LoreEvent::FileInfo(d) && info_of(x, d)
}

/// True when `xs` are what `evs` report, in order.
pub open spec fn info_entries_of(xs: Seq<FileInfoEntry>, evs: Seq<LoreEvent>) -> bool {
    xs.len() == evs.len() && forall|j: int| 0 <= j < evs.len() ==> info_entry_of(#[trigger] xs[j], evs[j])
}

/// What `d` reports.
fn info_from(d: &FileInfoData) -> (r: FileInfoEntry)
    ensures
        info_of(r, *d),
{
    FileInfoEntry {
        path: d.path.clone(),
        context: d.context.clone(),
        hash: d.hash.clone(),
        is_file: d.is_file != 0,
        is_dir: d.is_dir != 0,
        flag_modified: d.flag_modified != 0,
        flag_deleted: d.flag_deleted != 0,
        flag_added: d.flag_added != 0,
        flag_conflict: d.flag_conflict != 0,
        mode: d.mode,
        size: d.size,
        local_size: d.local_size,
        local_hash: d.local_hash.clone(),
        filter_size: d.filter_size,
    }
}

/// The result of `file info`, read off its event stream: one entry per
/// `FileInfo` event.
pub fn info_from_events(stream: &EventStream, status: &str) -> (r: Result<FileInfoResult>)
    ensures
        !stream.ok ==> is_stream_failure(r, *stream, "file info"@, status@),
        stream.ok ==> (r matches Ok(res) && info_entries_of(res.entries@, of_kind(stream.events@, EventKind::FileInfo))),
{
    if let Err(e) = check_stream(stream, "file info", status) {
        return Err(e);
    }
    let ghost evs = stream.events@;
    let mut entries: Vec<FileInfoEntry> = Vec::new();
    let mut i: usize = 0;
    while i < stream.events.len()
        invariant
            i <= stream.events.len(),
            evs == stream.events@,
            info_entries_of(entries@, of_kind(evs.take(i as int), EventKind::FileInfo)),
        decreases stream.events.len() - i,
    {
        proof {
            lemma_fold_step(evs, EventKind::FileInfo, i as int);
        }
        if let LoreEvent::FileInfo(d) = &stream.events[i] {
            entries.push(info_from(d));
        }
        i += 1;
    }
    proof {
        lemma_take_all(evs);
    }
    Ok(FileInfoResult { entries })
}

} // verus!
