use vstd::prelude::*;

use crate::confined::ConfinedRegistry;
use crate::handle::{Handle, TypeKey};
use crate::registry::{claim_model, inv, resolve_model};
use crate::shared::SharedRegistry;

verus! {

/// A service of the shared, process-wide scope: a type that has at most one
/// live instance per process, resolved through the one [`SharedRegistry`].
///
/// An implementing type supplies the stable key under which its instance is
/// registered; two uses of one type must yield the same key and two distinct
/// service types must yield distinct keys, or the per-key guarantees of the
/// registry speak of the wrong type.
pub trait Service {
    /// The key this type registers under, as a specification-level value.
    spec fn key_spec() -> TypeKey;

    /// The key this type registers under.
    fn type_key() -> (k: TypeKey)
        ensures
            k == Self::key_spec(),
    ;

    /// Resolve this service in the process-wide store: return the handle
    /// registered for the type, creating and registering it first when the
    /// type was never resolved in this scope. The caller must hold the
    /// store's lock for the whole call, and the caller that receives `true`
    /// starts the new instance after releasing it.
    fn from_registry(registry: &mut SharedRegistry) -> (r: (Handle, bool))
        requires
            inv(old(registry)@),
            old(registry)@.next_serial < u64::MAX,
        ensures
            inv(final(registry)@),
            final(registry)@ == resolve_model(old(registry)@, Self::key_spec()).0,
            r.0 == resolve_model(old(registry)@, Self::key_spec()).1,
            r.1 == resolve_model(old(registry)@, Self::key_spec()).2,
    {
        registry.resolve(Self::type_key())
    }
}

/// A service confined to one execution context: a type that has at most one
/// live instance per context, resolved through the context's own
/// [`ConfinedRegistry`]. The same type resolved from two distinct contexts
/// yields two independent instances.
pub trait LocalService {
    /// The key this type registers under, as a specification-level value.
    spec fn key_spec() -> TypeKey;

    /// The key this type registers under.
    fn type_key() -> (k: TypeKey)
        ensures
            k == Self::key_spec(),
    ;

    /// Resolve this service in the calling context's own store: the check
    /// half of the confined scope's two-phase operation. When the type was
    /// resolved here before, the registered handle is returned; otherwise a
    /// fresh handle is minted for it, with nothing stored yet. The caller
    /// that receives `true` must start the new instance and, only once the
    /// start has succeeded, `register` the handle — so a failed start
    /// leaves the store unchanged. Valid only when called from the context
    /// that owns `registry`.
    fn from_registry(registry: &mut ConfinedRegistry) -> (r: (Handle, bool))
        requires
            inv(old(registry)@),
            old(registry)@.next_serial < u64::MAX,
        ensures
            inv(final(registry)@),
            final(registry)@ == claim_model(old(registry)@, Self::key_spec()).0,
            r.0 == claim_model(old(registry)@, Self::key_spec()).1,
            r.1 == claim_model(old(registry)@, Self::key_spec()).2,
    {
        let key = Self::type_key();
        match registry.lookup(key) {
            Some(handle) => (handle, false),
            None => (registry.mint(key), true),
        }
    }
}

} // verus!
