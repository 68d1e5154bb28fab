//! The shared backend handle: the single backend instance every request
//! works against, guarded by a reader/writer lock so that queries may run
//! side by side while mutations hold exclusive access.

use vstd::prelude::*;
use vstd::rwlock::RwLock;
use crate::provider::Provider;

verus! {

/// One backend instance behind a reader/writer lock. Created once at
/// startup and shared across all concurrent requests for the life of the
/// process; the lock admits any backend value, since it protects sharing,
/// not a data invariant. Readers may hold the lock together; a writer
/// excludes all readers and other writers, so no query observes a
/// partially-applied mutation.
#[verifier::reject_recursive_types(T)]
pub struct ProviderState<T: Provider> {
    pub(crate) lock: RwLock<Box<T>, spec_fn(Box<T>) -> bool>,
}

impl<T: Provider> ProviderState<T> {
    /// The lock admits every backend value, so any mutation may be stored
    /// back.
    #[verifier::type_invariant]
    pub(crate) open spec fn wf(&self) -> bool {
        forall|v: Box<T>| self.lock.inv(v)
    }

    /// Wrap one backend instance for shared use.
    pub fn new(prov: Box<T>) -> (s: Self) {
        let s = ProviderState { lock: RwLock::new(prov, Ghost(|v: Box<T>| true)) };
        proof {
            assert(forall|v: Box<T>| s.lock.inv(v));
        }
        s
    }
}

} // verus!
