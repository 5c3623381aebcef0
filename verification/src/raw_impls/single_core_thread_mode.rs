//! A single-core safe raw mutex that does not require a critical section.

use vstd::prelude::*;

use crate::traits::{ConstInit, ScopedRawMutex};

verus! {

/// The classification of the current execution context on a single-core
/// target, as produced by the platform's privileged execution-mode probe.
#[derive(Clone, Copy, PartialEq, Eq, Structural, Debug)]
pub enum ExecutionMode {
    /// Ordinary, preemptible execution: not an interrupt or exception
    /// handler.
    Thread,
    /// An interrupt or exception handler.
    Interrupt,
}

/// A mutex that only allows borrowing from thread mode.
///
/// This mutex may be shared between threads, but is usable only outside
/// interrupt and exception context. Exclusion rests on a runtime check of
/// the current execution mode instead of a critical section, which makes
/// acquisition cheaper — under the assumption, which the caller must
/// supply, that the target has a single core. On a multi-core target this
/// mutex is not sufficient to ensure exclusive access.
///
/// The mutex carries the most recently recorded execution-mode
/// classification; the embedding refreshes it through [`Self::set_mode`]
/// with the value read from the platform's status register. Acquisition
/// from interrupt context is reported as plain contention; a second
/// acquisition from thread mode can only mean re-entrant misuse and is
/// unrecoverable.
#[derive(Debug)]
pub struct ThreadModeRawMutex {
    taken: bool,
    mode: ExecutionMode,
}

impl ThreadModeRawMutex {
    /// Create a new `ThreadModeRawMutex`, unlocked, observing thread mode.
    pub fn new() -> (r: Self)
        ensures
            r == ThreadModeRawMutex::init_spec(),
            !r.locked(),
            r.acquirable(),
            !r.acquire_fatal(),
            r.exec_mode() == ExecutionMode::Thread,
    {
        ThreadModeRawMutex { taken: false, mode: ExecutionMode::Thread }
    }

    /// The execution-mode classification this mutex currently observes.
    pub closed spec fn exec_mode(&self) -> ExecutionMode {
        self.mode
    }

    /// Record the current execution-context classification, as read from
    /// the platform's execution-mode probe.
    pub fn set_mode(&mut self, mode: ExecutionMode)
        ensures
            final(self).exec_mode() == mode,
            final(self).locked() == old(self).locked(),
    {
        self.mode = mode;
    }

    /// Tear the mutex down.
    ///
    /// Destroying the mutex implies destroying whatever storage it was
    /// guarding, which must obey the same access rule as locking: teardown
    /// is only permitted from thread mode.
    pub fn dispose(self)
        requires
            self.exec_mode() == ExecutionMode::Thread,
    {
    }
}

impl ConstInit for ThreadModeRawMutex {
    closed spec fn init_spec() -> Self {
        ThreadModeRawMutex { taken: false, mode: ExecutionMode::Thread }
    }

    proof fn init_properties() {
    }

    fn const_init() -> (r: Self) {
        ThreadModeRawMutex { taken: false, mode: ExecutionMode::Thread }
    }
}

impl ScopedRawMutex for ThreadModeRawMutex {
    closed spec fn locked(&self) -> bool {
        self.taken
    }

    closed spec fn acquirable(&self) -> bool {
        !self.taken && self.mode == ExecutionMode::Thread
    }

    closed spec fn acquire_fatal(&self) -> bool {
        self.taken && self.mode == ExecutionMode::Thread
    }

    proof fn acquisition_properties(&self) {
    }

    fn try_with_lock<D, R, F: FnOnce(&mut D) -> R>(&mut self, data: &mut D, f: F) -> (r:
        Option<R>) {
        if self.mode != ExecutionMode::Thread {
            return None;
        }
        // In thread mode a set flag is re-entrant misuse, which the caller
        // must rule out.
        self.taken = true;
        let out = f(data);
        self.taken = false;
        Some(out)
    }

    fn with_lock<D, R, F: FnOnce(&mut D) -> R>(&mut self, data: &mut D, f: F) -> (r: R) {
        // Contention from thread mode means certain deadlock, and locking
        // from interrupt context is excluded outright: the caller must
        // rule both out, so the contention arm is unreachable.
        self.try_with_lock(data, f).unwrap()
    }

    fn is_locked(&self) -> (r: bool) {
        self.taken
    }
}

/// Interrupt-mode refusal: while interrupt or exception context is
/// observed, an acquisition attempt neither succeeds nor is misuse,
/// whatever the taken flag holds — `try_with_lock` then reports plain
/// contention without calling the closure or touching the data.
pub proof fn law_interrupt_mode_refusal(m: ThreadModeRawMutex)
    requires
        m.exec_mode() == ExecutionMode::Interrupt,
    ensures
        !m.acquirable(),
        !m.acquire_fatal(),
{
}

} // verus!
