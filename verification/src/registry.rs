use vstd::prelude::*;

use crate::handle::{Handle, RegistryEntry, TypeKey};

verus! {

/// Mathematical state of one registry, shared or confined: the scope the
/// registry mints instances for, the entries stored so far, and the serial
/// the next created instance will carry.
#[verifier::ext_equal]
pub ghost struct RegistryView {
    pub scope: u64,
    pub entries: Map<u64, RegistryEntry>,
    pub next_serial: u64,
}

/// State of a freshly created registry for `scope`: no entries, serials
/// starting at zero.
pub open spec fn empty_view(scope: u64) -> RegistryView {
    RegistryView { scope, entries: Map::empty(), next_serial: 0 }
}

/// Keying invariant of a registry. The entry stored under a code is for the
/// type of that code — so recovering it under its own key always succeeds —
/// carries the registry's own scope, and carries a serial below the next one
/// to be minted, so a newly minted handle equals no stored one.
pub open spec fn inv(v: RegistryView) -> bool {
    forall|c: u64| #[trigger] v.entries.dom().contains(c) ==> {
        &&& v.entries[c].handle.type_key.code == c
        &&& v.entries[c].handle.scope == v.scope
        &&& v.entries[c].handle.serial < v.next_serial
    }
}

/// What looking a key up yields: the stored handle when the key has an
/// entry, nothing otherwise.
pub open spec fn lookup_model(v: RegistryView, key: TypeKey) -> Option<Handle> {
    if v.entries.dom().contains(key.code) {
        Some(v.entries[key.code].handle)
    } else {
        None
    }
}

/// The one step both registries implement: check, then create if absent.
///
/// Yields the state after the step, the handle the caller receives, and
/// whether a new instance was created. When the key already has an entry the
/// state is untouched and the stored handle is returned; otherwise a handle
/// with the next serial is minted, stored under the key, and returned.
pub open spec fn resolve_model(v: RegistryView, key: TypeKey) -> (RegistryView, Handle, bool) {
    if v.entries.dom().contains(key.code) {
        (v, v.entries[key.code].handle, false)
    } else {
        let h = Handle { type_key: key, scope: v.scope, serial: v.next_serial };
        let next = RegistryView {
            scope: v.scope,
            entries: v.entries.insert(key.code, RegistryEntry { handle: h }),
            next_serial: (v.next_serial + 1) as u64,
        };
        (next, h, true)
    }
}

/// The check half of the confined scope's two-phase operation: look the key
/// up and, when it is absent, mint the handle a new instance will be
/// reachable under — bumping the serial but storing nothing yet. Yields the
/// state after the step, the handle, and whether an instance must now be
/// created. Registering the minted handle is a separate step, taken only
/// after the instance has started, so a failed start leaves no entry behind.
pub open spec fn claim_model(v: RegistryView, key: TypeKey) -> (RegistryView, Handle, bool) {
    if v.entries.dom().contains(key.code) {
        (v, v.entries[key.code].handle, false)
    } else {
        let h = Handle { type_key: key, scope: v.scope, serial: v.next_serial };
        let next = RegistryView {
            scope: v.scope,
            entries: v.entries,
            next_serial: (v.next_serial + 1) as u64,
        };
        (next, h, true)
    }
}

/// The create half of the confined scope's two-phase operation: store a
/// handle under its own key.
pub open spec fn register_model(v: RegistryView, h: Handle) -> RegistryView {
    RegistryView {
        scope: v.scope,
        entries: v.entries.insert(h.type_key.code, RegistryEntry { handle: h }),
        next_serial: v.next_serial,
    }
}

/// One resolve step keeps the keying invariant, as long as a serial is
/// still mintable.
pub proof fn lemma_resolve_preserves_inv(v: RegistryView, key: TypeKey)
    requires
        inv(v),
        v.next_serial < u64::MAX,
    ensures
        inv(resolve_model(v, key).0),
{
}

} // verus!
