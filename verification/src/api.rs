//! The handle every operation runs against.
use vstd::prelude::*;
use crate::global::LoreGlobal;

verus! {

/// The handle every operation runs against: the global settings of one
/// repository.
#[derive(Debug)]
pub struct LoreApi {
    globals: LoreGlobal,
}

impl LoreApi {
    /// The settings this handle runs with.
    pub closed spec fn spec_globals(&self) -> LoreGlobal {
        self.globals
    }

    /// A handle for the repository at `repository_path`, with default settings.
    pub fn new(repository_path: String) -> (r: Self)
        ensures
            r.spec_globals().repository_path == repository_path,
            r.spec_globals().identity@ == Seq::<char>::empty(),
            !r.spec_globals().offline,
            !r.spec_globals().force,
            r.spec_globals().max_connections == 8,
            !r.spec_globals().in_memory,
    {
        LoreApi::from_global(LoreGlobal::new(repository_path))
    }

    /// A handle with the given settings.
    pub fn from_global(globals: LoreGlobal) -> (r: Self)
        ensures
            r.spec_globals() == globals,
    {
        LoreApi { globals }
    }

    /// The settings this handle runs with.
    pub fn globals(&self) -> (r: &LoreGlobal)
        ensures
            *r == self.spec_globals(),
    {
        &self.globals
    }
}

} // verus!
