//! `file write`: writes the content of a file at a revision to a path.
use vstd::prelude::*;
use crate::error::Result;
use crate::events::{
    check_stream, event_path, is_stream_failure, last_of_kind, lemma_fold_step, lemma_take_all, EventKind,
    EventStream, LoreEvent,
};
use crate::paths::{resolved, resolve_path};

verus! {

/// Arguments of `file write`: the content is named by address or by path.
#[derive(Debug, Clone)]
pub struct FileWriteArgs {
    pub address: String,
    /// The file, relative to the repository root or absolute.
    pub path: String,
    /// The revision; empty for the current one.
    pub revision: String,
    /// Where the content is written.
    pub output: String,
}

/// The engine's arguments of `file write`.
#[derive(Debug)]
pub struct LoreFileWriteArgs {
    pub address: String,
    pub path: String,
    pub revision: String,
    pub output: String,
}

impl FileWriteArgs {
    /// The engine's arguments, with the path resolved against `repo_root`.
    pub fn into_lore(self, repo_root: &str) -> (r: LoreFileWriteArgs)
        ensures
            r.address == self.address,
            r.path@ == resolved(repo_root@, self.path@),
            r.revision == self.revision,
            r.output == self.output,
    {
        LoreFileWriteArgs {
            path: resolve_path(repo_root, self.path.as_str()),
            address: self.address,
            revision: self.revision,
            output: self.output,
        }
    }
}

/// The path written.
#[derive(Debug, Clone)]
pub struct FileWriteResult {
    pub path: String,
}

/// The path the last `FileWrite` event of `evs` reports; empty when none came.
pub open spec fn written_path(evs: Seq<LoreEvent>) -> Seq<char> {
    match last_of_kind(evs, EventKind::FileWrite) {
        Some(e) => match event_path(e) {
            Some(p) => p@,
            None => Seq::empty(),
        },
        None => Seq::empty(),
    }
}

/// The result of `file write`, read off its event stream.
pub fn write_from_events(stream: &EventStream, status: &str) -> (r: Result<FileWriteResult>)
    ensures
        !stream.ok ==> is_stream_failure(r, *stream, "file write"@, status@),
        stream.ok ==> (r matches Ok(res) && res.path@ == written_path(stream.events@)),
{
    if let Err(e) = check_stream(stream, "file write", status) {
        return Err(e);
    }
    let ghost evs = stream.events@;
    let mut written = String::new();
    let mut i: usize = 0;
    while i < stream.events.len()
        invariant
            i <= stream.events.len(),
            evs == stream.events@,
            written@ == written_path(evs.take(i as int)),
        decreases stream.events.len() - i,
    {
        proof {
            lemma_fold_step(evs, EventKind::FileWrite, i as int);
        }
        if let LoreEvent::FileWrite(d) = &stream.events[i] {
            written = d.path.clone();
        }
        i += 1;
    }
    proof {
        lemma_take_all(evs);
    }
    Ok(FileWriteResult { path: written })
}

} // verus!
