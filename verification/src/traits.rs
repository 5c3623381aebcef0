//! The two raw-lock contracts: closure-scoped locking and manually paired
//! lock/unlock, together with the bridging rule that turns any manual lock
//! into a scoped one.
//!
//! A raw lock implements the exclusion mechanism only; it holds no protected
//! data. Exclusive access to the protected storage is threaded through the
//! scoped operations as an explicit payload argument, so that the borrow of
//! the storage is handed to the closure exactly when the lock is held.

use vstd::prelude::*;

verus! {

/// Construction of a lock's initial, unlocked value, distinct from ordinary
/// construction so that callers can treat the result as *the* canonical
/// starting state (for example when placing a lock in long-lived storage).
pub trait ConstInit: ScopedRawMutex {
    /// The canonical initial value.
    spec fn init_spec() -> Self;

    /// The canonical initial value is unlocked and ready to acquire.
    proof fn init_properties()
        ensures
            Self::init_spec().acquirable(),
            !Self::init_spec().locked(),
            !Self::init_spec().acquire_fatal(),
    ;

    /// Produce the canonical initial value.
    fn const_init() -> (r: Self)
        ensures
            r == Self::init_spec(),
    ;
}

/// Raw scoped mutex trait.
///
/// A scoped raw mutex is locked for the exact duration of one provided
/// computation: acquisition, the call, and release form a single operation.
///
/// Acquisition in this model is described by three state predicates:
/// `locked` is the taken flag, `acquirable` says that an acquisition attempt
/// now succeeds, and `acquire_fatal` says that an acquisition attempt now is
/// unrecoverable misuse (the implementation terminates the program rather
/// than return). An attempt that neither succeeds nor is fatal reports
/// contention as the absence of a result.
pub trait ScopedRawMutex: Sized {
    /// Whether the lock is currently held.
    spec fn locked(&self) -> bool;

    /// Whether an acquisition attempt made now succeeds.
    spec fn acquirable(&self) -> bool;

    /// Whether an acquisition attempt made now is unrecoverable misuse.
    spec fn acquire_fatal(&self) -> bool;

    /// A lock that can be acquired is not held, and an attempt never both
    /// succeeds and is misuse.
    proof fn acquisition_properties(&self)
        ensures
            self.acquirable() ==> !self.locked(),
            !(self.acquirable() && self.acquire_fatal()),
    ;

    /// Attempt to lock, calling `f(data)` with the lock held if acquisition
    /// succeeds and releasing afterwards. Returns the computed result, or
    /// nothing if the lock could not be acquired, in which case `f` was not
    /// called and the storage behind `data` is untouched.
    #[must_use]
    fn try_with_lock<D, R, F: FnOnce(&mut D) -> R>(&mut self, data: &mut D, f: F) -> (r:
        Option<R>)
        requires
            !old(self).acquire_fatal(),
            old(self).acquirable() ==> (forall|m: &mut D|
                *m == *old(data) ==> call_requires(f, (m,))),
        ensures
            *final(self) == *old(self),
            match r {
                Some(out) => old(self).acquirable() && (exists|m: &mut D|
                    *m == *old(data) && *final(m) == *final(data) && call_ensures(f, (m,), out)),
                None => !old(self).acquirable() && *final(data) == *old(data),
            },
    ;

    /// Lock, calling `f(data)` with the lock held and releasing afterwards.
    ///
    /// Under exclusive access, an acquisition that cannot succeed now can
    /// never succeed (no other holder exists that could release), so this
    /// operation demands an acquirable lock instead of blocking on one that
    /// is already held.
    fn with_lock<D, R, F: FnOnce(&mut D) -> R>(&mut self, data: &mut D, f: F) -> (r: R)
        requires
            old(self).acquirable(),
            forall|m: &mut D| *m == *old(data) ==> call_requires(f, (m,)),
        ensures
            *final(self) == *old(self),
            exists|m: &mut D|
                *m == *old(data) && *final(m) == *final(data) && call_ensures(f, (m,), r),
    ;

    /// Whether the lock is currently held.
    fn is_locked(&self) -> (r: bool)
        ensures
            r == self.locked(),
    ;
}

/// Raw mutex trait: a manually paired acquire/release mechanism.
///
/// This is the more general contract: a lock may be held between explicit
/// `lock` and `unlock` calls, which is what guard-style access is built
/// from. Every implementer satisfies [`ScopedRawMutex`] through the blanket
/// implementation below.
pub trait RawMutex: Sized {
    /// Marker type describing whether a "held" token derived from this lock
    /// may be transferred across threads.
    type GuardMarker;

    /// Whether the lock is currently held.
    spec fn locked(&self) -> bool;

    /// The state of this lock with the hold relinquished.
    spec fn released(&self) -> Self;

    /// Releasing is idempotent in the sense that a lock that is not held is
    /// already in its released state, and a released lock is not held.
    proof fn released_properties(&self)
        ensures
            !self.released().locked(),
            !self.locked() ==> self.released() == *self,
    ;

    /// Acquire the lock.
    ///
    /// Under exclusive access, acquiring a lock that is already held can
    /// only mean deadlock, so that input is excluded.
    fn lock(&mut self)
        requires
            !old(self).locked(),
        ensures
            final(self).locked(),
            final(self).released() == old(self).released(),
    ;

    /// Attempt to acquire the lock without blocking; reports whether the
    /// lock was acquired.
    fn try_lock(&mut self) -> (r: bool)
        ensures
            r == !old(self).locked(),
            final(self).locked(),
            final(self).released() == old(self).released(),
            !r ==> *final(self) == *old(self),
    ;

    /// Release the lock. Callable only while the lock is held.
    fn unlock(&mut self)
        requires
            old(self).locked(),
        ensures
            *final(self) == old(self).released(),
    ;

    /// Whether the lock is currently held.
    fn is_locked(&self) -> (r: bool)
        ensures
            r == self.locked(),
    ;
}

/// The bridging rule: every manual lock is a scoped lock. Acquisition
/// succeeds exactly when the lock is free, contention is reported as the
/// absence of a result, and the lock is released as soon as the computation
/// returns.
impl<M: RawMutex> ScopedRawMutex for M {
    open spec fn locked(&self) -> bool {
        RawMutex::locked(self)
    }

    open spec fn acquirable(&self) -> bool {
        !RawMutex::locked(self)
    }

    open spec fn acquire_fatal(&self) -> bool {
        false
    }

    proof fn acquisition_properties(&self) {
    }

    fn try_with_lock<D, R, F: FnOnce(&mut D) -> R>(&mut self, data: &mut D, f: F) -> (r:
        Option<R>) {
        proof {
            old(self).released_properties();
        }
        if self.try_lock() {
            let out = f(data);
            self.unlock();
            Some(out)
        } else {
            None
        }
    }

    fn with_lock<D, R, F: FnOnce(&mut D) -> R>(&mut self, data: &mut D, f: F) -> (r: R) {
        proof {
            old(self).released_properties();
        }
        self.lock();
        let out = f(data);
        self.unlock();
        out
    }

    fn is_locked(&self) -> (r: bool) {
        RawMutex::is_locked(self)
    }
}

/// The scoped view of a manual lock agrees with the manual contract: the
/// held states coincide, acquisition succeeds exactly on a free lock, and
/// contention is never treated as misuse.
pub proof fn law_manual_yields_scoped<M: RawMutex>(m: M)
    ensures
        ScopedRawMutex::locked(&m) == RawMutex::locked(&m),
        ScopedRawMutex::acquirable(&m) == !RawMutex::locked(&m),
        !ScopedRawMutex::acquire_fatal(&m),
{
}

/// A lock that is held cannot be acquired: an acquisition attempt made
/// while another access holds the lock reports contention (or is misuse),
/// never success.
pub proof fn law_no_acquisition_while_held<M: ScopedRawMutex>(m: M)
    requires
        m.locked(),
    ensures
        !m.acquirable(),
{
    m.acquisition_properties();
}

} // verus!
