//! `layer list_staged`: the layers with staged changes.
use vstd::prelude::*;
use crate::error::Result;
use crate::events::{
    check_stream, is_stream_failure, lemma_fold_step, lemma_take_all, of_kind, EventKind, EventStream, LoreEvent,
};

verus! {

/// Arguments of `layer list_staged`: none.
#[derive(Debug, Clone)]
pub struct LayerListStagedArgs {}

/// The engine's arguments of `layer list_staged`: none.
#[derive(Debug)]
pub struct LoreLayerListStagedArgs {}

impl LayerListStagedArgs {
    /// The engine's arguments.
    pub fn into_lore(self) -> (r: LoreLayerListStagedArgs) {
        LoreLayerListStagedArgs {}
    }
}

/// A layer with staged changes.
#[derive(Debug, Clone)]
pub struct LayerStagedEntry {
    pub target_path: String,
    pub source_repository: String,
    pub staged_file_count: u64,
}

/// The layers with staged changes.
#[derive(Debug, Clone)]
pub struct LayerListStagedResult {
    pub entries: Vec<LayerStagedEntry>,
}

/// True when `x` is the layer that event `e` reports.
pub open spec fn layer_entry_of(x: LayerStagedEntry, e: LoreEvent) -> bool {
    e matches LoreEvent::LayerStagedEntry(d) && x.target_path == d.path && x.source_repository == d.repository
        && x.staged_file_count == d.staged_file_count
}

/// True when `xs` are the layers that `evs` report, in order.
pub open spec fn layer_entries_of(xs: Seq<LayerStagedEntry>, evs: Seq<LoreEvent>) -> bool {
    xs.len() == evs.len() && forall|j: int| 0 <= j < evs.len() ==> layer_entry_of(#[trigger] xs[j], evs[j])
}

/// The result of `layer list_staged`, read off its event stream: one entry
/// per `LayerStagedEntry` event.
pub fn layer_list_staged_from_events(stream: &EventStream, status: &str) -> (r: Result<LayerListStagedResult>)
    ensures
        !stream.ok ==> is_stream_failure(r, *stream, "layer_list_staged"@, status@),
        stream.ok ==> (r matches Ok(res)
            && layer_entries_of(res.entries@, of_kind(stream.events@, EventKind::LayerStagedEntry))),
{
    if let Err(e) = check_stream(stream, "layer_list_staged", status) {
        return Err(e);
    }
    let ghost evs = stream.events@;
    let mut entries: Vec<LayerStagedEntry> = Vec::new();
    let mut i: usize = 0;
    while i < stream.events.len()
        invariant
            i <= stream.events.len(),
            evs == stream.events@,
            layer_entries_of(entries@, of_kind(evs.take(i as int), EventKind::LayerStagedEntry)),
        decreases stream.events.len() - i,
    {
        proof {
            lemma_fold_step(evs, EventKind::LayerStagedEntry, i as int);
        }
        if let LoreEvent::LayerStagedEntry(d) = &stream.events[i] {
            entries.push(LayerStagedEntry {
                target_path: d.path.clone(),
                source_repository: d.repository.clone(),
                staged_file_count: d.staged_file_count,
            });
        }
        i += 1;
    }
    proof {
        lemma_take_all(evs);
    }
    Ok(LayerListStagedResult { entries })
}

} // verus!
