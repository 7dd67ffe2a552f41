//! `link list_staged`: the links with staged changes.
use vstd::prelude::*;
use crate::error::Result;
use crate::events::{
    check_stream, is_stream_failure, lemma_fold_step, lemma_take_all, of_kind, EventKind, EventStream, LoreEvent,
};

verus! {

/// A link with staged changes.
#[derive(Debug, Clone)]
pub struct StagedLinkEntry {
    pub path: String,
    pub repository: String,
    pub staged_file_count: u64,
}

/// The links with staged changes, with their number.
#[derive(Debug, Clone)]
pub struct LinkListStagedResult {
    pub link_count: u32,
    pub links: Vec<StagedLinkEntry>,
}

/// True when `x` is the link that event `e` reports.
pub open spec fn staged_link_of(x: StagedLinkEntry, e: LoreEvent) -> bool {
    e matches LoreEvent::LinkStagedEntry(d) && x.path == d.path && x.repository == d.repository
        && x.staged_file_count == d.staged_file_count
}

/// True when `xs` are the links that `evs` report, in order.
pub open spec fn staged_links_of(xs: Seq<StagedLinkEntry>, evs: Seq<LoreEvent>) -> bool {
    xs.len() == evs.len() && forall|j: int| 0 <= j < evs.len() ==> staged_link_of(#[trigger] xs[j], evs[j])
}

/// The result of `link list_staged`, read off its event stream: one link
/// per `LinkStagedEntry` event, and their number (modulo 2^32).
pub fn list_staged_from_events(stream: &EventStream, status: &str) -> (r: Result<LinkListStagedResult>)
    ensures
        !stream.ok ==> is_stream_failure(r, *stream, "link list_staged"@, status@),
        stream.ok ==> (r matches Ok(res) && staged_links_of(res.links@, of_kind(stream.events@, EventKind::LinkStagedEntry))
            && res.link_count == res.links.len() as u32),
{
    if let Err(e) = check_stream(stream, "link list_staged", status) {
        return Err(e);
    }
    let ghost evs = stream.events@;
    let mut links: Vec<StagedLinkEntry> = Vec::new();
    let mut i: usize = 0;
    while i < stream.events.len()
        invariant
            i <= stream.events.len(),
            evs == stream.events@,
            staged_links_of(links@, of_kind(evs.take(i as int), EventKind::LinkStagedEntry)),
        decreases stream.events.len() - i,
    {
        proof {
            lemma_fold_step(evs, EventKind::LinkStagedEntry, i as int);
        }
        if let LoreEvent::LinkStagedEntry(d) = &stream.events[i] {
            links.push(StagedLinkEntry {
                path: d.path.clone(),
                repository: d.repository.clone(),
                staged_file_count: d.staged_file_count,
            });
        }
        i += 1;
    }
    proof {
        lemma_take_all(evs);
    }
    #[verifier::truncate]
    let link_count = links.len() as u32;
    Ok(LinkListStagedResult { link_count, links })
}

} // verus!
