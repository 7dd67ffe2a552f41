//! `branch metadata_get`: reads metadata of a branch.
use vstd::prelude::*;
use crate::error::Result;
use crate::events::{
    check_stream, is_stream_failure, lemma_fold_step, lemma_take_all, of_kind, EventKind, EventStream, LoreEvent,
    MetadataValue,
};
use crate::text::{decimal, decimal_text};

verus! {

/// Arguments of `branch metadata_get`.
#[derive(Debug, Clone)]
pub struct BranchMetadataGetArgs {
    /// The branch; empty for the current one.
    pub branch: String,
    /// The key read; empty for every key.
    pub key: String,
}

/// The engine's arguments of `branch metadata_get`.
#[derive(Debug)]
pub struct LoreBranchMetadataGetArgs {
    pub branch: String,
    pub key: String,
}

impl BranchMetadataGetArgs {
    /// The engine's arguments.
    pub fn into_lore(self) -> (r: LoreBranchMetadataGetArgs)
        ensures
            r.branch == self.branch,
            r.key == self.key,
    {
        LoreBranchMetadataGetArgs { branch: self.branch, key: self.key }
    }
}

/// One metadata entry, its value shown as text with the name of its type.
#[derive(Debug, Clone)]
pub struct BranchMetadataEntry {
    pub key: String,
    pub value: String,
    pub value_type: String,
}

/// The branch and its metadata entries.
#[derive(Debug, Clone)]
pub struct BranchMetadataGetResult {
    pub branch: String,
    pub entries: Vec<BranchMetadataEntry>,
}

/// The text a metadata value shows as, and the name of its type. Binary
/// values are not shown.
pub open spec fn shown_value(v: MetadataValue) -> (Seq<char>, Seq<char>) {
    match v {
        MetadataValue::String(s) => (s@, "string"@),
        MetadataValue::Numeric(n) => (decimal(n as nat), "numeric"@),
        MetadataValue::Boolean(b) => (if b != 0 { "true"@ } else { "false"@ }, "boolean"@),
        MetadataValue::Hash(h) => (h@, "hash"@),
        MetadataValue::Address(a) => (a@, "address"@),
        MetadataValue::Context(c) => (c@, "context"@),
        MetadataValue::Binary(_) => ("<binary>"@, "binary"@),
    }
}

/// The text a metadata value shows as, and the name of its type.
pub fn format_metadata_value(v: &MetadataValue) -> (r: (String, &'static str))
    ensures
        (r.0@, r.1@) == shown_value(*v),
{
    match v {
        MetadataValue::String(s) => (s.clone(), "string"),
        MetadataValue::Numeric(n) => (decimal_text(*n), "numeric"),
        MetadataValue::Boolean(b) => {
            if *b != 0 {
                (String::from_str("true"), "boolean")
            } else {
                (String::from_str("false"), "boolean")
            }
        },
        MetadataValue::Hash(h) => (h.clone(), "hash"),
        MetadataValue::Address(a) => (a.clone(), "address"),
        MetadataValue::Context(c) => (c.clone(), "context"),
        MetadataValue::Binary(_) => (String::from_str("<binary>"), "binary"),
    }
}

/// True when `x` is the entry that event `e` reports.
pub open spec fn branch_entry_of(x: BranchMetadataEntry, e: LoreEvent) -> bool {
    e matches LoreEvent::Metadata(d) && x.key == d.key && (x.value@, x.value_type@) == shown_value(d.value)
}

/// True when `xs` are the entries that `evs` report, in order.
pub open spec fn branch_entries_of(xs: Seq<BranchMetadataEntry>, evs: Seq<LoreEvent>) -> bool {
    xs.len() == evs.len() && forall|j: int| 0 <= j < evs.len() ==> branch_entry_of(#[trigger] xs[j], evs[j])
}

/// The result of `branch metadata_get`, read off its event stream: the
/// branch asked about, and one entry per `Metadata` event.
pub fn metadata_get_from_events(branch: String, stream: &EventStream, status: &str) -> (r: Result<BranchMetadataGetResult>)
    ensures
        !stream.ok ==> is_stream_failure(r, *stream, "branch metadata_get"@, status@),
        stream.ok ==> (r matches Ok(res) && res.branch == branch
            && branch_entries_of(res.entries@, of_kind(stream.events@, EventKind::Metadata))),
{
    if let Err(e) = check_stream(stream, "branch metadata_get", status) {
        return Err(e);
    }
    let ghost evs = stream.events@;
    let mut entries: Vec<BranchMetadataEntry> = Vec::new();
    let mut i: usize = 0;
    while i < stream.events.len()
        invariant
            i <= stream.events.len(),
            evs == stream.events@,
            branch_entries_of(entries@, of_kind(evs.take(i as int), EventKind::Metadata)),
        decreases stream.events.len() - i,
    {
        proof {
            lemma_fold_step(evs, EventKind::Metadata, i as int);
        }
        if let LoreEvent::Metadata(d) = &stream.events[i] {
            let (value, value_type) = format_metadata_value(&d.value);
            entries.push(BranchMetadataEntry { key: d.key.clone(), value, value_type: String::from_str(value_type) });
        }
        i += 1;
    }
    proof {
        lemma_take_all(evs);
    }
    Ok(BranchMetadataGetResult { branch, entries })
}

} // verus!
