use vstd::prelude::*;

use crate::entry_map::EntryMap;
use crate::handle::{Handle, RegistryEntry, TypeKey};
use crate::registry::{claim_model, empty_view, inv, lookup_model, register_model, RegistryView};

verus! {

/// The singleton store of one execution context.
///
/// Each context owns one, created on its first use and never observed from
/// outside that context, so no lock is needed: the check-then-create
/// sequence is never interleaved with any other flow touching the same
/// store. Distinct contexts must build their stores with distinct `scope`
/// tokens; the same type resolved in two contexts then yields two handles
/// that never compare equal.
///
/// Unlike the shared store, creation here is two-phase: `mint` claims a
/// handle for an absent key without storing anything, the owning context
/// starts the new instance, and only a successful start is followed by
/// `register`. A start that fails therefore leaves the store exactly as it
/// was, with no dead handle cached.
pub struct ConfinedRegistry {
    scope: u64,
    entries: EntryMap,
    next_serial: u64,
}

impl View for ConfinedRegistry {
    type V = RegistryView;

    closed spec fn view(&self) -> RegistryView {
        RegistryView { scope: self.scope, entries: self.entries@, next_serial: self.next_serial }
    }
}

impl ConfinedRegistry {
    /// A fresh store for the context named `scope`, holding no entries.
    pub fn new(scope: u64) -> (r: ConfinedRegistry)
        ensures
            r@ == empty_view(scope),
            inv(r@),
    {
        let r = ConfinedRegistry { scope, entries: EntryMap::new(), next_serial: 0 };
        proof {
            assert(r@.entries =~= empty_view(scope).entries);
            assert(r@ =~= empty_view(scope));
        }
        r
    }

    /// Whether a serial is still mintable, so one more instance could be
    /// created in this context.
    pub fn has_capacity(&self) -> (b: bool)
        ensures
            b == (self@.next_serial < u64::MAX),
    {
        self.next_serial < u64::MAX
    }

    /// The handle registered for `key` in this context, if any; the store
    /// is not changed. No lock is taken: only the owning context can call.
    pub fn lookup(&self, key: TypeKey) -> (r: Option<Handle>)
        requires
            inv(self@),
        ensures
            r == lookup_model(self@, key),
    {
        match self.entries.get(key.code) {
            Some(entry) => {
                proof {
                    assert(self@.entries.dom().contains(key.code));
                    assert(entry.handle.type_key == key);
                }
                entry.downcast(key)
            },
            None => None,
        }
    }

    /// Claim the handle a new instance of `key`'s type will be reachable
    /// under: the serial is consumed, but nothing is stored yet. The caller
    /// must start the instance and, only once the start has succeeded, hand
    /// the handle to `register`; until then every lookup of `key` still
    /// finds nothing.
    pub fn mint(&mut self, key: TypeKey) -> (h: Handle)
        requires
            inv(old(self)@),
            old(self)@.next_serial < u64::MAX,
            !old(self)@.entries.dom().contains(key.code),
        ensures
            inv(final(self)@),
            final(self)@ == claim_model(old(self)@, key).0,
            h == claim_model(old(self)@, key).1,
    {
        let h = Handle { type_key: key, scope: self.scope, serial: self.next_serial };
        self.next_serial = self.next_serial + 1;
        proof {
            assert(self@ =~= claim_model(old(self)@, key).0);
        }
        h
    }

    /// Store a started instance's handle under its own key: the create half
    /// of the two-phase operation, called once the start has succeeded.
    ///
    /// The handle is checked before anything is stored: it must be one this
    /// store minted — its key still absent, its scope this store's own, its
    /// serial already consumed. A handle that fails the check is refused and
    /// the store is left unchanged; for the owning context that is a
    /// programming fault, not a recoverable condition.
    pub fn register(&mut self, handle: Handle) -> (ok: bool)
        requires
            inv(old(self)@),
        ensures
            inv(final(self)@),
            ok == (!old(self)@.entries.dom().contains(handle.type_key.code)
                && handle.scope == old(self)@.scope && handle.serial < old(self)@.next_serial),
            ok ==> final(self)@ == register_model(old(self)@, handle),
            !ok ==> final(self)@ == old(self)@,
    {
        match self.entries.get(handle.type_key.code) {
            Some(_) => false,
            None => {
                if handle.scope == self.scope && handle.serial < self.next_serial {
                    self.entries.insert(handle.type_key.code, RegistryEntry { handle });
                    proof {
                        assert(self@ =~= register_model(old(self)@, handle));
                    }
                    true
                } else {
                    false
                }
            },
        }
    }
}

} // verus!
