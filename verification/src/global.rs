//! The global settings shared by every operation: repository path, identity,
//! offline/force flags and parallelism limits.
use vstd::prelude::*;

verus! {

/// Builder for the global arguments shared by all operations.
#[derive(Debug)]
pub struct LoreGlobal {
    pub repository_path: String,
    pub identity: String,
    pub offline: bool,
    pub force: bool,
    pub max_connections: u32,
    /// Run with in-process, in-memory stores (no on-disk store, no server).
    pub in_memory: bool,
}

impl Clone for LoreGlobal {
    fn clone(&self) -> (r: Self)
        ensures
            r == *self,
    {
        LoreGlobal {
            repository_path: self.repository_path.clone(),
            identity: self.identity.clone(),
            offline: self.offline,
            force: self.force,
            max_connections: self.max_connections,
            in_memory: self.in_memory,
        }
    }
}

/// The global arguments every engine call receives: the plain values of the
/// engine's own global-arguments record that this crate sets.
#[derive(Debug)]
pub struct GlobalArgs {
    pub repository_path: String,
    pub correlation_id: String,
    pub identity: String,
    pub force: u8,
    pub offline: u8,
    pub local: u8,
    pub remote: u8,
    pub dry_run: u8,
    pub no_atime: u8,
    pub max_connections: u32,
    pub search_limit: u32,
    pub search_nearest: u8,
    pub gc: u8,
    pub in_memory: u8,
}

/// `u8::from(bool)`.
pub open spec fn flag(b: bool) -> u8 {
    if b {
        1
    } else {
        0
    }
}

/// `u8::from(bool)`.
pub fn flag_of(b: bool) -> (r: u8)
    ensures
        r == flag(b),
{
    if b {
        1
    } else {
        0
    }
}

impl LoreGlobal {
    /// Settings for the repository at `repository_path`: no identity, online,
    /// not forced, eight connections, on-disk stores.
    pub fn new(repository_path: String) -> (r: Self)
        ensures
            r == (LoreGlobal {
                repository_path,
                identity: r.identity,
                offline: false,
                force: false,
                max_connections: 8,
                in_memory: false,
            }),
            r.identity@ == Seq::<char>::empty(),
    {
        LoreGlobal {
            repository_path,
            identity: String::new(),
            offline: false,
            force: false,
            max_connections: 8,
            in_memory: false,
        }
    }

    /// The same settings with the given identity.
    pub fn identity(self, id: String) -> (r: Self)
        ensures
            r == (LoreGlobal { identity: id, ..self }),
    {
        LoreGlobal { identity: id, ..self }
    }

    /// The same settings with the offline flag set to `v`.
    pub fn offline(self, v: bool) -> (r: Self)
        ensures
            r == (LoreGlobal { offline: v, ..self }),
    {
        LoreGlobal { offline: v, ..self }
    }

    /// The same settings with the force flag set to `v`.
    pub fn force(self, v: bool) -> (r: Self)
        ensures
            r == (LoreGlobal { force: v, ..self }),
    {
        LoreGlobal { force: v, ..self }
    }

    /// The same settings with at most `v` connections.
    pub fn max_connections(self, v: u32) -> (r: Self)
        ensures
            r == (LoreGlobal { max_connections: v, ..self }),
    {
        LoreGlobal { max_connections: v, ..self }
    }

    /// The same settings with in-memory stores switched to `v`.
    pub fn in_memory(self, v: bool) -> (r: Self)
        ensures
            r == (LoreGlobal { in_memory: v, ..self }),
    {
        LoreGlobal { in_memory: v, ..self }
    }

    /// The global arguments these settings stand for: the path, identity and
    /// flags as given, an empty correlation id, no local/remote/dry-run/
    /// no-atime/nearest-search/gc, and a search limit of 100.
    pub fn build(&self) -> (r: GlobalArgs)
        ensures
            r.repository_path == self.repository_path,
            r.correlation_id@ == Seq::<char>::empty(),
            r.identity == self.identity,
            r.force == flag(self.force),
            r.offline == flag(self.offline),
            r.local == 0,
            r.remote == 0,
            r.dry_run == 0,
            r.no_atime == 0,
            r.max_connections == self.max_connections,
            r.search_limit == 100,
            r.search_nearest == 0,
            r.gc == 0,
            r.in_memory == flag(self.in_memory),
    {
        GlobalArgs {
            repository_path: self.repository_path.clone(),
            correlation_id: String::new(),
            identity: self.identity.clone(),
            force: flag_of(self.force),
            offline: flag_of(self.offline),
            local: 0,
            remote: 0,
            dry_run: 0,
            no_atime: 0,
            max_connections: self.max_connections,
            search_limit: 100,
            search_nearest: 0,
            gc: 0,
            in_memory: flag_of(self.in_memory),
        }
    }
}

} // verus!
