//! Critical-section-backed raw mutex.

use vstd::prelude::*;

use crate::traits::{ConstInit, ScopedRawMutex};

verus! {

/// Relies on `critical_section::with`: it runs the given closure exactly
/// once with global mutual exclusion held against interrupts and other
/// cores, releases the critical section on every exit path, and returns
/// the closure's result.
#[verifier::external_body]
fn with_critical_section<D, R, F: FnOnce(&mut D) -> R>(data: &mut D, f: F) -> (r: R)
    requires
        forall|m: &mut D| *m == *old(data) ==> call_requires(f, (m,)),
    ensures
        exists|m: &mut D|
            *m == *old(data) && *final(m) == *final(data) && call_ensures(f, (m,), r),
{
    critical_section::with(move |_cs| f(data))
}

/// A mutex that allows borrowing data across executors and interrupts.
///
/// The protected computation runs inside a critical section supplied by
/// the host environment, so it is safe to share this mutex between
/// different executors, interrupt contexts and cores. In this model the
/// taken flag itself is guarded by the exclusive borrow that every
/// operation demands; the critical section guards the computation against
/// preemption.
///
/// While a critical section is held, no other holder of this mutex can
/// run, let alone release: finding the lock already held can only mean
/// misuse, so `with_lock` treats that as unrecoverable rather than wait
/// for a release that cannot happen.
#[derive(Debug)]
pub struct CriticalSectionRawMutex {
    taken: bool,
}

impl CriticalSectionRawMutex {
    /// Create a new `CriticalSectionRawMutex`, unlocked.
    pub fn new() -> (r: Self)
        ensures
            r == CriticalSectionRawMutex::init_spec(),
            !r.locked(),
            r.acquirable(),
            !r.acquire_fatal(),
    {
        CriticalSectionRawMutex { taken: false }
    }
}

impl ConstInit for CriticalSectionRawMutex {
    closed spec fn init_spec() -> Self {
        CriticalSectionRawMutex { taken: false }
    }

    proof fn init_properties() {
    }

    fn const_init() -> (r: Self) {
        CriticalSectionRawMutex { taken: false }
    }
}

impl ScopedRawMutex for CriticalSectionRawMutex {
    closed spec fn locked(&self) -> bool {
        self.taken
    }

    closed spec fn acquirable(&self) -> bool {
        !self.taken
    }

    closed spec fn acquire_fatal(&self) -> bool {
        false
    }

    proof fn acquisition_properties(&self) {
    }

    fn try_with_lock<D, R, F: FnOnce(&mut D) -> R>(&mut self, data: &mut D, f: F) -> (r:
        Option<R>) {
        if self.taken {
            return None;
        }
        self.taken = true;
        let out = with_critical_section(data, f);
        self.taken = false;
        Some(out)
    }

    fn with_lock<D, R, F: FnOnce(&mut D) -> R>(&mut self, data: &mut D, f: F) -> (r: R) {
        // A held lock here means certain deadlock: the caller must rule it
        // out, so the contention arm is unreachable.
        self.try_with_lock(data, f).unwrap()
    }

    fn is_locked(&self) -> (r: bool) {
        self.taken
    }
}

} // verus!
