use vstd::prelude::*;

use crate::handle::TypeKey;
use crate::service::{LocalService, Service};

verus! {

/// Key code under which [`Counter`] registers, in either scope.
pub const COUNTER_KEY_CODE: u64 = 1;

/// A counter kept as a service: one total per registry scope, raised by one
/// per message. Its instance starts at zero, and because each scope holds at
/// most one instance, increments sent by different callers land on the same
/// total.
pub struct Counter {
    pub value: u64,
}

impl Default for Counter {
    /// The initial state of a newly started counter instance: zero.
    fn default() -> (c: Counter)
        ensures
            c.value == 0,
    {
        Counter { value: 0 }
    }
}

impl Counter {
    /// Handle one increment message: raise the total by one and report the
    /// new total back to the sender.
    pub fn increment(&mut self) -> (total: u64)
        requires
            old(self).value < u64::MAX,
        ensures
            final(self).value == old(self).value + 1,
            total == final(self).value,
    {
        self.value = self.value + 1;
        self.value
    }
}

impl Service for Counter {
    open spec fn key_spec() -> TypeKey {
        TypeKey { code: COUNTER_KEY_CODE }
    }

    fn type_key() -> (k: TypeKey) {
        TypeKey { code: COUNTER_KEY_CODE }
    }
}

impl LocalService for Counter {
    open spec fn key_spec() -> TypeKey {
        TypeKey { code: COUNTER_KEY_CODE }
    }

    fn type_key() -> (k: TypeKey) {
        TypeKey { code: COUNTER_KEY_CODE }
    }
}

} // verus!
