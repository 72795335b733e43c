//! A thin client over the host's key-value boundary. Only the session
//! handle and the locally answered queries live here; a point lookup or an
//! upsert is a host call, made by the caller, which hands plain values in
//! and out.

use vstd::prelude::*;

verus! {

/// One key-value session, identified by the connection handle the host
/// issued. A handle of `-1` stands for the current agent's own namespace.
pub struct KvStorage {
    pub connection_id: i32,
}

impl KvStorage {
    /// Wraps a connection handle the host issued.
    pub fn new(connection_id: i32) -> (r: Self)
        ensures
            r.connection_id == connection_id,
    {
        Self { connection_id }
    }

    /// Whether the key exists. Existence checks are not wired up yet:
    /// every key reads as absent.
    pub fn contains(&self, _key: String) -> (r: bool)
        ensures
            !r,
    {
        false
    }

    /// The keys that start with `prefix`. Key listing is not wired up
    /// yet: every prefix yields the empty list.
    pub fn keys(_prefix: String) -> (r: Vec<String>)
        ensures
            r@.len() == 0,
    {
        Vec::new()
    }
}

/// Opens the key-value store of the current agent.
pub fn open() -> (r: KvStorage)
    ensures
        r.connection_id == -1,
{
    KvStorage { connection_id: -1 }
}

} // verus!
