//! Single-thread-only raw mutex.

use vstd::prelude::*;

use crate::traits::{ConstInit, ScopedRawMutex};

verus! {

/// A mutex for data that is only used within a single thread or task.
///
/// No inter-thread synchronization is performed: the taken flag alone
/// guards access, which is sound because all use happens under exclusive
/// access from one context. An acquisition attempt that finds the flag set
/// can only mean re-entrant misuse on the same thread, so `with_lock`
/// treats a held lock as unrecoverable rather than waiting for a release
/// that cannot happen.
#[derive(Debug)]
pub struct LocalRawMutex {
    taken: bool,
}

impl LocalRawMutex {
    /// Create a new `LocalRawMutex`, unlocked.
    pub fn new() -> (r: Self)
        ensures
            r == LocalRawMutex::init_spec(),
            !r.locked(),
            r.acquirable(),
            !r.acquire_fatal(),
    {
        LocalRawMutex { taken: false }
    }
}

impl ConstInit for LocalRawMutex {
    closed spec fn init_spec() -> Self {
        LocalRawMutex { taken: false }
    }

    proof fn init_properties() {
    }

    fn const_init() -> (r: Self) {
        LocalRawMutex { taken: false }
    }
}

impl ScopedRawMutex for LocalRawMutex {
    closed spec fn locked(&self) -> bool {
        self.taken
    }

    closed spec fn acquirable(&self) -> bool {
        !self.taken
    }

    closed spec fn acquire_fatal(&self) -> bool {
        false
    }

    proof fn acquisition_properties(&self) {
    }

    fn try_with_lock<D, R, F: FnOnce(&mut D) -> R>(&mut self, data: &mut D, f: F) -> (r:
        Option<R>) {
        if self.taken {
            return None;
        }
        self.taken = true;
        let out = f(data);
        self.taken = false;
        Some(out)
    }

    fn with_lock<D, R, F: FnOnce(&mut D) -> R>(&mut self, data: &mut D, f: F) -> (r: R) {
        // A held lock here means re-entrant misuse: the caller must rule it
        // out, so the contention arm is unreachable.
        self.try_with_lock(data, f).unwrap()
    }

    fn is_locked(&self) -> (r: bool) {
        self.taken
    }
}

} // verus!
