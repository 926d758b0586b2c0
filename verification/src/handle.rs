use vstd::prelude::*;

verus! {

/// Runtime token identifying one concrete service type.
///
/// Whoever mints keys must give two uses of the same type the same code and
/// two distinct types distinct codes; every guarantee of the registries is
/// then per key.
#[derive(Clone, Copy, PartialEq, Eq, Structural, Debug, Hash)]
pub struct TypeKey {
    pub code: u64,
}

impl TypeKey {
    pub fn new(code: u64) -> (k: TypeKey)
        ensures
            k.code == code,
    {
        TypeKey { code }
    }
}

/// Cloneable reference to one running actor instance.
///
/// Two handles are equivalent exactly when all their fields agree: they then
/// refer to the same instance. `scope` names the registry that created the
/// instance and `serial` its creation rank inside that registry, so handles
/// of instances created by different registries never compare equal.
#[derive(Clone, Copy, PartialEq, Eq, Structural, Debug)]
pub struct Handle {
    pub type_key: TypeKey,
    pub scope: u64,
    pub serial: u64,
}

/// Type-erased cell: one handle, stored under a type key and recoverable
/// only by naming the expected key again.
#[derive(Clone, Copy, PartialEq, Eq, Structural, Debug)]
pub struct RegistryEntry {
    pub handle: Handle,
}

/// What recovering a handle from an erased entry yields: the stored handle
/// when the entry was stored for `key`, nothing when it was stored for
/// another type.
pub open spec fn downcast_model(e: RegistryEntry, key: TypeKey) -> Option<Handle> {
    if e.handle.type_key == key {
        Some(e.handle)
    } else {
        None
    }
}

impl RegistryEntry {
    /// Recover the handle stored in this entry, checking it against the
    /// key the caller expects. `None` means the entry belongs to another
    /// type; a registry that keeps its keying invariant never yields it.
    pub fn downcast(&self, key: TypeKey) -> (r: Option<Handle>)
        ensures
            r == downcast_model(*self, key),
    {
        if self.handle.type_key == key {
            Some(self.handle)
        } else {
            None
        }
    }
}

} // verus!
