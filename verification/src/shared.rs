use vstd::prelude::*;

use crate::entry_map::EntryMap;
use crate::handle::{Handle, RegistryEntry, TypeKey};
use crate::registry::{empty_view, inv, lookup_model, resolve_model, RegistryView};

verus! {

/// The process-wide singleton store.
///
/// A process holds exactly one, lazily created and then mutated only under
/// a lock compatible with cooperative suspension; both live outside this
/// type. Because every call of `resolve` happens with the lock held, the
/// interleaving of all callers is some sequence of atomic `resolve` steps,
/// and the guarantees proved of such sequences in [`crate::laws`] apply.
pub struct SharedRegistry {
    scope: u64,
    entries: EntryMap,
    next_serial: u64,
}

impl View for SharedRegistry {
    type V = RegistryView;

    closed spec fn view(&self) -> RegistryView {
        RegistryView { scope: self.scope, entries: self.entries@, next_serial: self.next_serial }
    }
}

impl SharedRegistry {
    /// A fresh store for `scope`, holding no entries.
    pub fn new(scope: u64) -> (r: SharedRegistry)
        ensures
            r@ == empty_view(scope),
            inv(r@),
    {
        let r = SharedRegistry { scope, entries: EntryMap::new(), next_serial: 0 };
        proof {
            assert(r@.entries =~= empty_view(scope).entries);
            assert(r@ =~= empty_view(scope));
        }
        r
    }

    /// Whether a serial is still mintable, so one more instance could be
    /// created. Callers that keep a registry behind plain values test this
    /// before `resolve`.
    pub fn has_capacity(&self) -> (b: bool)
        ensures
            b == (self@.next_serial < u64::MAX),
    {
        self.next_serial < u64::MAX
    }

    /// The handle registered for `key`, if any; the store is not changed.
    pub fn lookup(&self, key: TypeKey) -> (r: Option<Handle>)
        requires
            inv(self@),
        ensures
            r == lookup_model(self@, key),
    {
        match self.entries.get(key.code) {
            Some(entry) => {
                proof {
                    assert(self@.entries.dom().contains(key.code));
                    assert(entry.handle.type_key == key);
                }
                entry.downcast(key)
            },
            None => None,
        }
    }

    /// Check, then create if absent: the one operation of the registry.
    ///
    /// Returns the handle every caller of `key` converges on, and whether
    /// this call was the one that created the instance. The caller that
    /// receives `true` is the one that must start the instance, after
    /// releasing the lock.
    pub fn resolve(&mut self, key: TypeKey) -> (r: (Handle, bool))
        requires
            inv(old(self)@),
            old(self)@.next_serial < u64::MAX,
        ensures
            inv(final(self)@),
            final(self)@ == resolve_model(old(self)@, key).0,
            r.0 == resolve_model(old(self)@, key).1,
            r.1 == resolve_model(old(self)@, key).2,
    {
        match self.lookup(key) {
            Some(handle) => (handle, false),
            None => {
                let handle = Handle { type_key: key, scope: self.scope, serial: self.next_serial };
                self.next_serial = self.next_serial + 1;
                self.entries.insert(key.code, RegistryEntry { handle });
                proof {
                    assert(self@ =~= resolve_model(old(self)@, key).0);
                }
                (handle, true)
            },
        }
    }
}

} // verus!
