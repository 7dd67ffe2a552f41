//! `file metadata_set`: sets metadata entries on files.
//!
//! The entries are given flat: `entries[i]` is how many of the keys, values
//! and formats, taken in order, belong to `paths[i]`.
use vstd::prelude::*;
use crate::error::Result;
use crate::events::{check_stream, is_stream_failure, EventStream, LoreMetadataType};

verus! {

/// The type a file metadata value is written as.
#[derive(Debug, Clone, Copy, PartialEq, Eq, Structural)]
pub enum MetadataType {
    Binary,
    Numeric,
    String,
}

/// The engine type of a metadata type.
pub open spec fn lore_type(t: MetadataType) -> LoreMetadataType {
    match t {
        MetadataType::Binary => LoreMetadataType::Binary,
        MetadataType::Numeric => LoreMetadataType::Numeric,
        MetadataType::String => LoreMetadataType::String,
    }
}

/// The metadata type of an engine type.
pub open spec fn metadata_type(t: LoreMetadataType) -> MetadataType {
    match t {
        LoreMetadataType::Binary => MetadataType::Binary,
        LoreMetadataType::Numeric => MetadataType::Numeric,
        LoreMetadataType::String => MetadataType::String,
    }
}

/// A metadata type and its engine type name the same kind of value, in
/// both directions: binary as binary, numeric as numeric, string as string.
pub proof fn lemma_metadata_types_correspond(t: MetadataType, e: LoreMetadataType)
    ensures
        (t is Binary <==> lore_type(t) is Binary) && (t is Numeric <==> lore_type(t) is Numeric)
            && (t is String <==> lore_type(t) is String),
        (e is Binary <==> metadata_type(e) is Binary) && (e is Numeric <==> metadata_type(e) is Numeric)
            && (e is String <==> metadata_type(e) is String),
{
}

impl From<MetadataType> for LoreMetadataType {
    fn from(value: MetadataType) -> (r: LoreMetadataType) {
        match value {
            MetadataType::Binary => LoreMetadataType::Binary,
            MetadataType::Numeric => LoreMetadataType::Numeric,
            MetadataType::String => LoreMetadataType::String,
        }
    }
}

impl vstd::std_specs::convert::FromSpecImpl<MetadataType> for LoreMetadataType {
    open spec fn obeys_from_spec() -> bool {
        true
    }

    open spec fn from_spec(v: MetadataType) -> LoreMetadataType {
        lore_type(v)
    }
}

impl From<LoreMetadataType> for MetadataType {
    fn from(value: LoreMetadataType) -> (r: MetadataType) {
        match value {
            LoreMetadataType::Binary => MetadataType::Binary,
            LoreMetadataType::Numeric => MetadataType::Numeric,
            LoreMetadataType::String => MetadataType::String,
        }
    }
}

impl vstd::std_specs::convert::FromSpecImpl<LoreMetadataType> for MetadataType {
    open spec fn obeys_from_spec() -> bool {
        true
    }

    open spec fn from_spec(v: LoreMetadataType) -> MetadataType {
        metadata_type(v)
    }
}

/// Arguments of `file metadata_set`.
#[derive(Debug, Clone)]
pub struct MetadataSetArgs {
    pub paths: Vec<String>,
    pub keys: Vec<String>,
    pub values: Vec<String>,
    pub formats: Vec<MetadataType>,
    /// How many of the entries belong to each path, in order.
    pub entries: Vec<u32>,
}

/// The engine's arguments of `file metadata_set`.
#[derive(Debug)]
pub struct LoreFileMetadataSetArgs {
    pub paths: Vec<String>,
    pub keys: Vec<String>,
    pub values: Vec<String>,
    pub formats: Vec<LoreMetadataType>,
    pub entries: Vec<u32>,
}

impl MetadataSetArgs {
    /// The engine's arguments; every format mapped to its engine type.
    pub fn into_lore(self) -> (r: LoreFileMetadataSetArgs)
        ensures
            r.paths == self.paths,
            r.keys == self.keys,
            r.values == self.values,
            r.formats.len() == self.formats.len(),
            forall|i: int| 0 <= i < self.formats.len() ==> #[trigger] r.formats[i] == lore_type(self.formats[i]),
            r.entries == self.entries,
    {
        let mut formats: Vec<LoreMetadataType> = Vec::new();
        let mut i: usize = 0;
        while i < self.formats.len()
            invariant
                i <= self.formats.len(),
                formats.len() == i,
                forall|j: int| 0 <= j < i ==> #[trigger] formats[j] == lore_type(self.formats[j]),
            decreases self.formats.len() - i,
        {
            formats.push(LoreMetadataType::from(self.formats[i]));
            i += 1;
        }
        LoreFileMetadataSetArgs { paths: self.paths, keys: self.keys, values: self.values, formats, entries: self.entries }
    }
}

/// How many files and entries were set.
#[derive(Debug, Clone)]
pub struct MetadataSetResult {
    pub files_processed: u32,
    pub entries_set: u32,
}

/// The sum of `s`.
pub open spec fn total(s: Seq<u32>) -> int
    decreases s.len(),
{
    if s.len() == 0 {
        0
    } else {
        total(s.drop_last()) + s.last()
    }
}

/// The number of files (modulo 2^32) and the total number of entries that
/// `args` set. The total must fit in a `u32`.
pub fn metadata_set_totals(args: &MetadataSetArgs) -> (r: (u32, u32))
    requires
        total(args.entries@) <= u32::MAX,
    ensures
        r.0 == args.paths.len() as u32,
        r.1 == total(args.entries@),
{
    #[verifier::truncate]
    let files_processed = args.paths.len() as u32;
    let mut entries_set: u32 = 0;
    let mut i: usize = 0;
    while i < args.entries.len()
        invariant
            i <= args.entries.len(),
            entries_set == total(args.entries@.take(i as int)),
            total(args.entries@) <= u32::MAX,
        decreases args.entries.len() - i,
    {
        proof {
            assert(args.entries@.take(i + 1).drop_last() =~= args.entries@.take(i as int));
            lemma_total_prefix(args.entries@, i as int + 1);
        }
        entries_set = entries_set + args.entries[i];
        i += 1;
    }
    proof {
        assert(args.entries@.take(i as int) =~= args.entries@);
    }
    (files_processed, entries_set)
}

/// A prefix of a sequence of counts sums to no more than the whole.
pub proof fn lemma_total_prefix(s: Seq<u32>, n: int)
    requires
        0 <= n <= s.len(),
    ensures
        total(s.take(n)) <= total(s),
    decreases s.len() - n,
{
    if n < s.len() {
        assert(s.take(n + 1).drop_last() =~= s.take(n));
        lemma_total_prefix(s, n + 1);
    } else {
        assert(s.take(n) =~= s);
    }
}

/// The result of `file metadata_set`: a success reports the totals
/// computed before the call.
pub fn metadata_set_from_events(files_processed: u32, entries_set: u32, stream: &EventStream, status: &str) -> (r: Result<MetadataSetResult>)
    ensures
        !stream.ok ==> is_stream_failure(r, *stream, "metadata_set"@, status@),
        stream.ok ==> (r matches Ok(res) && res.files_processed == files_processed && res.entries_set == entries_set),
{
    if let Err(e) = check_stream(stream, "metadata_set", status) {
        return Err(e);
    }
    Ok(MetadataSetResult { files_processed, entries_set })
}

} // verus!
