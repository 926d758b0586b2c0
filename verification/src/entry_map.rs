use vstd::prelude::*;

use crate::handle::RegistryEntry;
use fnv::FnvHasher;
use std::collections::HashMap;
use std::hash::BuildHasherDefault;

verus! {

/// Store of registry entries, keyed by a type key's code.
///
/// Both registries keep their entries in one of these. It wraps the map the
/// entries actually live in — a `std::collections::HashMap` hashed with
/// `fnv::FnvHasher` — which Verus does not look inside; the methods below
/// are trusted to behave as `HashMap`'s documentation says.
#[verifier::external_body]
pub struct EntryMap {
    map: HashMap<u64, RegistryEntry, BuildHasherDefault<FnvHasher>>,
}

/// What an `EntryMap` holds: each key code present in the wrapped map,
/// mapped to the entry stored under it.
pub uninterp spec fn entry_map_contents(m: EntryMap) -> Map<u64, RegistryEntry>;

impl View for EntryMap {
    type V = Map<u64, RegistryEntry>;

    open spec fn view(&self) -> Map<u64, RegistryEntry> {
        entry_map_contents(*self)
    }
}

impl EntryMap {
    /// Relies on `HashMap::default`: a freshly built map holds nothing.
    #[verifier::external_body]
    pub fn new() -> (r: EntryMap)
        ensures
            forall|c: u64| !r@.dom().contains(c),
    {
        EntryMap { map: HashMap::default() }
    }

    /// Relies on `HashMap::get`: returns the value stored under `code` when
    /// there is one, and nothing otherwise.
    #[verifier::external_body]
    pub fn get(&self, code: u64) -> (r: Option<RegistryEntry>)
        ensures
            r == (if entry_map_contents(*self).dom().contains(code) {
                Some(entry_map_contents(*self)[code])
            } else {
                None::<RegistryEntry>
            }),
    {
        self.map.get(&code).copied()
    }

    /// Relies on `HashMap::insert`: after the call the map holds `entry`
    /// under `code` and is otherwise unchanged.
    #[verifier::external_body]
    pub fn insert(&mut self, code: u64, entry: RegistryEntry)
        ensures
            final(self)@ == entry_map_contents(*old(self)).insert(code, entry),
    {
        self.map.insert(code, entry);
    }
}

} // verus!
