//! `file obliterate`: erases a file's content from the store.
use vstd::prelude::*;
use crate::error::Result;
use crate::events::{
    check_stream, is_stream_failure, lemma_fold_step, lemma_take_all, of_kind, EventKind, EventStream, LoreEvent,
};
use crate::paths::{resolved, resolve_path};

verus! {

/// Arguments of `file obliterate`: the content is named by address or by path.
#[derive(Debug, Clone)]
pub struct FileObliterateArgs {
    pub address: String,
    /// The file, relative to the repository root or absolute.
    pub path: String,
}

/// The engine's arguments of `file obliterate`.
#[derive(Debug)]
pub struct LoreFileObliterateArgs {
    pub address: String,
    pub path: String,
}

impl FileObliterateArgs {
    /// The engine's arguments, with the path resolved against `repo_root`.
    pub fn into_lore(self, repo_root: &str) -> (r: LoreFileObliterateArgs)
        ensures
            r.address == self.address,
            r.path@ == resolved(repo_root@, self.path@),
    {
        LoreFileObliterateArgs { path: resolve_path(repo_root, self.path.as_str()), address: self.address }
    }
}

/// One erased content.
#[derive(Debug, Clone)]
pub struct FileObliterateEntry {
    pub address: String,
    pub num_fragments: usize,
    pub num_payloads: usize,
}

/// The contents erased.
#[derive(Debug, Clone)]
pub struct FileObliterateResult {
    pub obliterated: Vec<FileObliterateEntry>,
}

/// True when `x` is the erased content that event `e` reports.
pub open spec fn obliterated_of(x: FileObliterateEntry, e: LoreEvent) -> bool {
    e matches LoreEvent::FileObliterate(d) && x.address == d.address && x.num_fragments == d.num_fragments
        && x.num_payloads == d.num_payloads
}

/// True when `xs` are the erased contents that `evs` report, in order.
pub open spec fn obliterated_entries_of(xs: Seq<FileObliterateEntry>, evs: Seq<LoreEvent>) -> bool {
    xs.len() == evs.len() && forall|j: int| 0 <= j < evs.len() ==> obliterated_of(#[trigger] xs[j], evs[j])
}

/// The result of `file obliterate`, read off its event stream: one entry per
/// `FileObliterate` event.
pub fn obliterate_from_events(stream: &EventStream, status: &str) -> (r: Result<FileObliterateResult>)
    ensures
        !stream.ok ==> is_stream_failure(r, *stream, "file obliterate"@, status@),
        stream.ok ==> (r matches Ok(res)
            && obliterated_entries_of(res.obliterated@, of_kind(stream.events@, EventKind::FileObliterate))),
{
    if let Err(e) = check_stream(stream, "file obliterate", status) {
        return Err(e);
    }
    let ghost evs = stream.events@;
    let mut obliterated: Vec<FileObliterateEntry> = Vec::new();
    let mut i: usize = 0;
    while i < stream.events.len()
        invariant
            i <= stream.events.len(),
            evs == stream.events@,
            obliterated_entries_of(obliterated@, of_kind(evs.take(i as int), EventKind::FileObliterate)),
        decreases stream.events.len() - i,
    {
        proof {
            lemma_fold_step(evs, EventKind::FileObliterate, i as int);
        }
        if let LoreEvent::FileObliterate(d) = &stream.events[i] {
            obliterated.push(FileObliterateEntry {
                address: d.address.clone(),
                num_fragments: d.num_fragments,
                num_payloads: d.num_payloads,
            });
        }
        i += 1;
    }
    proof {
        lemma_take_all(evs);
    }
    Ok(FileObliterateResult { obliterated })
}

} // verus!
