//! The manual lock/unlock contract, the guard, and the bridging rule,
//! exercised through a simple flag-based manual lock.

use mutex::BlockingMutex;
use mutex::RawMutex;
use mutex::ScopedRawMutex;

struct FlagLock {
    held: bool,
}

impl RawMutex for FlagLock {
    type GuardMarker = ();

    // The contract-level items are ordinary trait items to a plain Rust
    // caller; they are never executed.
    fn locked(&self) -> bool {
        self.held
    }

    fn released(&self) -> Self {
        FlagLock { held: false }
    }

    fn released_properties(&self) {}

    fn lock(&mut self) {
        assert!(!self.held, "deadlocked");
        self.held = true;
    }

    fn try_lock(&mut self) -> bool {
        if self.held {
            false
        } else {
            self.held = true;
            true
        }
    }

    fn unlock(&mut self) {
        self.held = false;
    }

    fn is_locked(&self) -> bool {
        self.held
    }
}

#[test]
fn guard_roundtrip() {
    let mut container = BlockingMutex::const_new(FlagLock { held: false }, 10u64);
    let g = container.lock();
    assert_eq!(*g.data, 10);
    *g.data = 11;
    g.release();
    assert_eq!(container.into_inner(), 11);
}

#[test]
fn try_lock_reports_contention() {
    let mut container = BlockingMutex::const_new(FlagLock { held: true }, 3u8);
    assert!(container.try_lock().is_none());
}

#[test]
fn try_with_lock_under_contention_skips_closure() {
    // A lock that is already held when the container is assembled stands
    // in for a concurrent holder.
    let mut container = BlockingMutex::const_new(FlagLock { held: true }, 5u32);
    let mut invoked = false;
    let out = container.try_with_lock(|n| {
        invoked = true;
        *n
    });
    assert_eq!(out, None);
    assert!(!invoked);
    assert_eq!(container.into_inner(), 5);
}

#[test]
fn bridging_rule_scoped_over_manual() {
    let mut raw = FlagLock { held: false };
    let mut payload: u32 = 20;
    let out = ScopedRawMutex::with_lock(&mut raw, &mut payload, |p: &mut u32| {
        *p += 2;
        *p
    });
    assert_eq!(out, 22);
    assert!(!RawMutex::is_locked(&raw));
    assert!(!ScopedRawMutex::is_locked(&raw));
}

#[test]
fn scoped_try_over_held_manual_lock() {
    let mut raw = FlagLock { held: true };
    let mut payload: u32 = 0;
    let out = raw.try_with_lock(&mut payload, |p: &mut u32| *p);
    assert_eq!(out, None);
    assert!(RawMutex::is_locked(&raw));
}

#[test]
fn manual_lock_cycle() {
    let mut raw = FlagLock { held: false };
    assert!(!RawMutex::is_locked(&raw));
    RawMutex::lock(&mut raw);
    assert!(RawMutex::is_locked(&raw));
    assert!(!RawMutex::try_lock(&mut raw));
    RawMutex::unlock(&mut raw);
    assert!(RawMutex::try_lock(&mut raw));
    RawMutex::unlock(&mut raw);
}

#[test]
fn try_lock_success_then_release() {
    let mut container = BlockingMutex::const_new(FlagLock { held: false }, 1u8);
    let g = container.try_lock().unwrap();
    *g.data += 1;
    g.release();
    assert!(container.try_lock().is_some());
    assert_eq!(container.into_inner(), 2);
}
