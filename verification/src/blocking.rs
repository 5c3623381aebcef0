//! The blocking mutex: one raw lock paired with the storage it protects.

use core::marker::PhantomData;

use vstd::prelude::*;

use crate::traits::{ConstInit, RawMutex, ScopedRawMutex};

verus! {

/// Blocking mutex (not async).
///
/// Pairs one raw lock with one protected value. Every access to the value
/// passes through an acquisition of the raw lock, and the lock is released
/// as soon as the access ends, so the value is reachable only while the
/// lock is held.
///
/// Which raw lock to select depends on the context the mutex is used in:
/// a critical-section-backed lock when data is shared with interrupt
/// contexts or other cores, the local lock when data stays within one
/// thread or task, and the thread-mode lock for single-core targets that
/// only touch the data outside interrupt context.
///
/// The mutex is intended to be held briefly: acquisitions never suspend,
/// and the protected computation should not yield to any outside
/// concurrency system while the lock is held.
pub struct BlockingMutex<R, T> {
    raw: R,
    data: T,
}

impl<R, T> BlockingMutex<R, T> {
    /// The state of the raw lock.
    pub closed spec fn raw_view(&self) -> R {
        self.raw
    }

    /// The protected value.
    pub closed spec fn value(&self) -> T {
        self.data
    }

    /// Creates a new mutex based on a pre-existing raw mutex, letting the
    /// caller supply a lock that was built or configured separately.
    pub fn const_new(raw_mutex: R, val: T) -> (r: BlockingMutex<R, T>)
        ensures
            r.raw_view() == raw_mutex,
            r.value() == val,
    {
        BlockingMutex { raw: raw_mutex, data: val }
    }

    /// Consumes this mutex, returning the underlying data.
    pub fn into_inner(self) -> (r: T)
        ensures
            r == self.value(),
    {
        self.data
    }

    /// Returns a mutable reference to the underlying data.
    ///
    /// Exclusive access to the whole mutex means no lock can be held, so
    /// no acquisition is needed: borrow checking substitutes for locking.
    pub fn get_mut(&mut self) -> (r: &mut T)
        ensures
            *r == old(self).value(),
            final(self).raw_view() == old(self).raw_view(),
            final(self).value() == *final(r),
    {
        &mut self.data
    }
}

impl<R: ConstInit, T> BlockingMutex<R, T> {
    /// Creates a new mutex in an unlocked state ready for use, with the
    /// raw lock in its canonical initial state.
    pub fn new(val: T) -> (r: BlockingMutex<R, T>)
        ensures
            r.raw_view() == R::init_spec(),
            r.value() == val,
            r.raw_view().acquirable(),
            !r.raw_view().locked(),
            !r.raw_view().acquire_fatal(),
    {
        proof {
            R::init_properties();
        }
        BlockingMutex { raw: R::const_init(), data: val }
    }
}

impl<R: ScopedRawMutex, T> BlockingMutex<R, T> {
    /// Locks the raw mutex and grants `f` temporary exclusive access to
    /// the inner data, releasing the lock after `f` completes.
    pub fn with_lock<U, F: FnOnce(&mut T) -> U>(&mut self, f: F) -> (r: U)
        requires
            old(self).raw_view().acquirable(),
            forall|m: &mut T| *m == old(self).value() ==> call_requires(f, (m,)),
        ensures
            final(self).raw_view() == old(self).raw_view(),
            exists|m: &mut T|
                *m == old(self).value() && *final(m) == final(self).value() && call_ensures(
                    f,
                    (m,),
                    r,
                ),
    {
        self.raw.with_lock(&mut self.data, f)
    }

    /// Attempts to lock the raw mutex and grant `f` temporary exclusive
    /// access to the inner data. Returns the computed result, or nothing
    /// if the lock was already held, in which case `f` was not called and
    /// the data is unchanged.
    #[must_use]
    pub fn try_with_lock<U, F: FnOnce(&mut T) -> U>(&mut self, f: F) -> (r: Option<U>)
        requires
            !old(self).raw_view().acquire_fatal(),
            old(self).raw_view().acquirable() ==> (forall|m: &mut T|
                *m == old(self).value() ==> call_requires(f, (m,))),
        ensures
            final(self).raw_view() == old(self).raw_view(),
            match r {
                Some(out) => old(self).raw_view().acquirable() && (exists|m: &mut T|
                    *m == old(self).value() && *final(m) == final(self).value() && call_ensures(
                        f,
                        (m,),
                        out,
                    )),
                None => !old(self).raw_view().acquirable() && final(self).value() == old(
                    self,
                ).value(),
            },
    {
        self.raw.try_with_lock(&mut self.data, f)
    }
}

impl<R: RawMutex, T> BlockingMutex<R, T> {
    /// Locks the raw mutex, returning a [`MutexGuard`] that grants
    /// temporary access to the inner data.
    ///
    /// This method is only available when the raw lock satisfies the
    /// manual [`RawMutex`] contract. Acquiring a lock that is already
    /// held can only mean deadlock under exclusive access, so that input
    /// is excluded.
    pub fn lock(&mut self) -> (g: MutexGuard<'_, R, T>)
        requires
            !RawMutex::locked(&old(self).raw_view()),
        ensures
            *g.data == old(self).value(),
            RawMutex::locked(&mut_ref_current(g.raw)),
            mut_ref_current(g.raw).released() == old(self).raw_view(),
            final(self).raw_view() == mut_ref_future(g.raw),
            final(self).value() == mut_ref_future(g.data),
    {
        proof {
            old(self).raw_view().released_properties();
        }
        self.raw.lock();
        MutexGuard { raw: &mut self.raw, data: &mut self.data, marker: PhantomData }
    }

    /// Attempts to lock the raw mutex, returning a [`MutexGuard`] if the
    /// lock was not already held. Never blocks: contention is reported as
    /// the absence of a guard, and the mutex is left untouched.
    #[must_use]
    pub fn try_lock(&mut self) -> (r: Option<MutexGuard<'_, R, T>>)
        ensures
            match r {
                Some(g) => !RawMutex::locked(&old(self).raw_view()) && *g.data == old(
                    self,
                ).value() && RawMutex::locked(&mut_ref_current(g.raw)) && mut_ref_current(
                    g.raw,
                ).released() == old(self).raw_view() && final(self).raw_view() == mut_ref_future(
                    g.raw,
                ) && final(self).value() == mut_ref_future(g.data),
                None => RawMutex::locked(&old(self).raw_view()) && *final(self) == *old(self),
            },
    {
        proof {
            old(self).raw_view().released_properties();
        }
        if self.raw.try_lock() {
            Some(MutexGuard { raw: &mut self.raw, data: &mut self.data, marker: PhantomData })
        } else {
            None
        }
    }
}

/// A guard that grants access to the data of a [`BlockingMutex`] while
/// the underlying raw lock is held.
///
/// The guard exists only for raw locks that satisfy the manual
/// [`RawMutex`] contract, because producing it separates acquisition from
/// release. Verified code carries no destructors, so release is an
/// explicit operation: call [`MutexGuard::release`] to unlock. A guard
/// that is merely dropped leaves the lock held.
#[must_use]
pub struct MutexGuard<'a, R: RawMutex, T> {
    /// The raw lock this guard holds. It stays locked for the guard's
    /// lifetime.
    pub raw: &'a mut R,
    /// Exclusive access to the protected value for the lifetime of the
    /// guard.
    pub data: &'a mut T,
    /// Makes the guard transferable across threads only when the raw
    /// lock's held-token marker is.
    pub marker: PhantomData<R::GuardMarker>,
}

impl<'a, R: RawMutex, T> MutexGuard<'a, R, T> {
    /// Releases the lock, consuming the guard. The protected value is
    /// left exactly as the caller last wrote it.
    pub fn release(self)
        requires
            RawMutex::locked(&mut_ref_current(self.raw)),
        ensures
            mut_ref_future(self.raw) == mut_ref_current(self.raw).released(),
            mut_ref_future(self.data) == mut_ref_current(self.data),
    {
        let MutexGuard { raw, data: _, marker: _ } = self;
        raw.unlock();
    }
}

/// Release on success: a scoped access leaves the raw lock exactly as it
/// found it, so a mutex that admitted one acquisition admits the next one
/// immediately. The second state below is the one `with_lock` and a
/// successful `try_with_lock` guarantee.
pub proof fn law_release_on_success<R: ScopedRawMutex, T>(
    before: BlockingMutex<R, T>,
    after: BlockingMutex<R, T>,
)
    requires
        before.raw_view().acquirable(),
        after.raw_view() == before.raw_view(),
    ensures
        after.raw_view().acquirable(),
        !after.raw_view().locked(),
{
    after.raw_view().acquisition_properties();
}

/// Contention keeps its hands off the data: while the raw lock is held,
/// `try_with_lock` cannot succeed, and its contract then guarantees that
/// the closure's effects are absent and the protected value is unchanged.
pub proof fn law_try_contention<R: ScopedRawMutex, T>(m: BlockingMutex<R, T>)
    requires
        m.raw_view().locked(),
    ensures
        !m.raw_view().acquirable(),
{
    m.raw_view().acquisition_properties();
}

/// Const-init equivalence: a container built by the default initializer
/// and one built from explicit parts with the canonical initial lock are
/// the same container, and therefore behave identically — in particular
/// for their first acquisition.
pub proof fn law_const_init_equivalence<R: ConstInit, T>(
    a: BlockingMutex<R, T>,
    b: BlockingMutex<R, T>,
)
    requires
        a.raw_view() == R::init_spec(),
        b.raw_view() == R::init_spec(),
        a.value() == b.value(),
    ensures
        a == b,
        a.raw_view().acquirable(),
{
    R::init_properties();
}

} // verus!
