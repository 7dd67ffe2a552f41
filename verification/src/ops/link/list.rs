//! `link list`: the links of the repository.
use vstd::prelude::*;
use crate::error::Result;
use crate::events::{
    check_stream, is_stream_failure, lemma_fold_step, lemma_take_all, of_kind, EventKind, EventStream, LoreEvent,
};

verus! {

/// The engine's arguments of `link list`: none.
#[derive(Debug)]
pub struct LoreLinkListArgs {}

/// A link.
#[derive(Debug, Clone)]
pub struct LinkEntry {
    pub link_path: String,
    pub link: String,
    pub source_node: String,
    pub link_node: String,
}

/// The links, with their number.
#[derive(Debug, Clone)]
pub struct LinkListResult {
    pub link_count: u32,
    pub links: Vec<LinkEntry>,
}

/// True when `x` is the link that event `e` reports.
pub open spec fn link_entry_of(x: LinkEntry, e: LoreEvent) -> bool {
    e matches LoreEvent::LinkEntry(d) && x.link_path == d.link_path && x.link == d.link
        && x.source_node == d.source_node && x.link_node == d.link_node
}

/// True when `xs` are the links that `evs` report, in order.
pub open spec fn link_entries_of(xs: Seq<LinkEntry>, evs: Seq<LoreEvent>) -> bool {
    xs.len() == evs.len() && forall|j: int| 0 <= j < evs.len() ==> link_entry_of(#[trigger] xs[j], evs[j])
}

/// The result of `link list`, read off its event stream: one link per
/// `LinkEntry` event, and their number (modulo 2^32).
pub fn list_from_events(stream: &EventStream, status: &str) -> (r: Result<LinkListResult>)
    ensures
        !stream.ok ==> is_stream_failure(r, *stream, "link list"@, status@),
        stream.ok ==> (r matches Ok(res) && link_entries_of(res.links@, of_kind(stream.events@, EventKind::LinkEntry))
            && res.link_count == res.links.len() as u32),
{
    if let Err(e) = check_stream(stream, "link list", status) {
        return Err(e);
    }
    let ghost evs = stream.events@;
    let mut links: Vec<LinkEntry> = Vec::new();
    let mut i: usize = 0;
    while i < stream.events.len()
        invariant
            i <= stream.events.len(),
            evs == stream.events@,
            link_entries_of(links@, of_kind(evs.take(i as int), EventKind::LinkEntry)),
        decreases stream.events.len() - i,
    {
        proof {
            lemma_fold_step(evs, EventKind::LinkEntry, i as int);
        }
        if let LoreEvent::LinkEntry(d) = &stream.events[i] {
            links.push(LinkEntry {
                link_path: d.link_path.clone(),
                link: d.link.clone(),
                source_node: d.source_node.clone(),
                link_node: d.link_node.clone(),
            });
        }
        i += 1;
    }
    proof {
        lemma_take_all(evs);
    }
    #[verifier::truncate]
    let link_count = links.len() as u32;
    Ok(LinkListResult { link_count, links })
}

} // verus!
