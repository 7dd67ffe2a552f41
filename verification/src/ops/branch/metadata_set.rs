//! `branch metadata_set`: sets metadata keys on a branch.
use vstd::prelude::*;
use crate::error::Result;
use crate::events::{check_stream, is_stream_failure, EventStream, LoreMetadataType};

verus! {

/// The type a branch metadata value is written as.
#[derive(Debug, Clone, Copy, PartialEq, Eq, Structural)]
pub enum MetadataFormat {
    Binary,
    Numeric,
    String,
}

/// The engine type of a metadata format.
pub open spec fn format_type(f: MetadataFormat) -> LoreMetadataType {
    match f {
        MetadataFormat::Binary => LoreMetadataType::Binary,
        MetadataFormat::Numeric => LoreMetadataType::Numeric,
        MetadataFormat::String => LoreMetadataType::String,
    }
}

/// A metadata format and its engine type name the same kind of value:
/// binary as binary, numeric as numeric, string as string.
pub proof fn lemma_format_type_names_the_format(f: MetadataFormat)
    ensures
        f is Binary <==> format_type(f) is Binary,
        f is Numeric <==> format_type(f) is Numeric,
        f is String <==> format_type(f) is String,
{
}

impl From<MetadataFormat> for LoreMetadataType {
    fn from(f: MetadataFormat) -> (r: LoreMetadataType) {
        match f {
            MetadataFormat::Binary => LoreMetadataType::Binary,
            MetadataFormat::Numeric => LoreMetadataType::Numeric,
            MetadataFormat::String => LoreMetadataType::String,
        }
    }
}

impl vstd::std_specs::convert::FromSpecImpl<MetadataFormat> for LoreMetadataType {
    open spec fn obeys_from_spec() -> bool {
        true
    }

    open spec fn from_spec(f: MetadataFormat) -> LoreMetadataType {
        format_type(f)
    }
}

/// Arguments of `branch metadata_set`: keys and values in parallel, with
/// the format of each key; keys beyond the formats given are strings.
#[derive(Debug, Clone)]
pub struct MetadataSetArgs {
    /// The branch; empty for the current one.
    pub branch: String,
    pub keys: Vec<String>,
    pub values: Vec<String>,
    pub formats: Vec<MetadataFormat>,
}

/// The engine's arguments of `branch metadata_set`.
#[derive(Debug)]
pub struct LoreBranchMetadataSetArgs {
    pub branch: String,
    pub keys: Vec<String>,
    pub values: Vec<String>,
    pub formats: Vec<LoreMetadataType>,
}

/// The engine type of the `i`-th key: its format when one was given, a
/// string otherwise.
pub open spec fn padded_format(formats: Seq<MetadataFormat>, i: int) -> LoreMetadataType {
    if i < formats.len() {
        format_type(formats[i])
    } else {
        LoreMetadataType::String
    }
}

impl MetadataSetArgs {
    /// The engine's arguments: one type per key, the formats given padded
    /// with strings (and formats beyond the keys dropped).
    pub fn into_lore(self) -> (r: LoreBranchMetadataSetArgs)
        ensures
            r.branch == self.branch,
            r.keys == self.keys,
            r.values == self.values,
            r.formats.len() == self.keys.len(),
            forall|i: int| 0 <= i < self.keys.len() ==> #[trigger] r.formats[i] == padded_format(self.formats@, i),
    {
        let mut formats: Vec<LoreMetadataType> = Vec::new();
        let mut i: usize = 0;
        while i < self.keys.len()
            invariant
                i <= self.keys.len(),
                formats.len() == i,
                forall|j: int| 0 <= j < i ==> #[trigger] formats[j] == padded_format(self.formats@, j),
            decreases self.keys.len() - i,
        {
            let t = if i < self.formats.len() {
                LoreMetadataType::from(self.formats[i])
            } else {
                LoreMetadataType::String
            };
            formats.push(t);
            i += 1;
        }
        LoreBranchMetadataSetArgs { branch: self.branch, keys: self.keys, values: self.values, formats }
    }
}

/// The branch and the keys and values set on it.
#[derive(Debug, Clone)]
pub struct MetadataSetResult {
    pub branch: String,
    pub keys: Vec<String>,
    pub values: Vec<String>,
}

/// The result of `branch metadata_set`: a success echoes the branch, keys
/// and values that were asked for.
pub fn metadata_set_from_events(branch: String, keys: Vec<String>, values: Vec<String>, stream: &EventStream, status: &str) -> (r: Result<MetadataSetResult>)
    ensures
        !stream.ok ==> is_stream_failure(r, *stream, "metadata_set"@, status@),
        stream.ok ==> (r matches Ok(res) && res.branch == branch && res.keys == keys && res.values == values),
{
    if let Err(e) = check_stream(stream, "metadata_set", status) {
        return Err(e);
    }
    Ok(MetadataSetResult { branch, keys, values })
}

} // verus!
