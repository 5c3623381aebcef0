//! Closure-scoped access through the blocking mutex, over the local and
//! critical-section mechanisms.

use mutex::raw_impls::cs::CriticalSectionRawMutex;
use mutex::raw_impls::local::LocalRawMutex;
use mutex::BlockingMutex;
use mutex::ScopedRawMutex;

#[test]
fn local_with_lock_increments() {
    let mut container: BlockingMutex<LocalRawMutex, u64> = BlockingMutex::new(0u64);
    let first = container.with_lock(|n| {
        *n += 1;
        *n
    });
    assert_eq!(first, 1);
    let second = container.with_lock(|n| {
        *n += 1;
        *n
    });
    assert_eq!(second, 2);
    assert_eq!(container.into_inner(), 2);
}

#[test]
fn cs_with_lock_increments() {
    let mut container: BlockingMutex<CriticalSectionRawMutex, u64> = BlockingMutex::new(0u64);
    let first = container.with_lock(|n| {
        *n += 1;
        *n
    });
    assert_eq!(first, 1);
    let second = container.with_lock(|n| {
        *n += 1;
        *n
    });
    assert_eq!(second, 2);
    assert_eq!(container.into_inner(), 2);
}

#[test]
fn release_on_success_local() {
    let mut container: BlockingMutex<LocalRawMutex, u32> = BlockingMutex::new(7u32);
    let seen = container.with_lock(|n| *n);
    assert_eq!(seen, 7);
    // The lock was released when `with_lock` returned, so a non-blocking
    // attempt immediately afterwards succeeds.
    let again = container.try_with_lock(|n| *n);
    assert_eq!(again, Some(7));
}

#[test]
fn release_on_success_cs() {
    let mut container: BlockingMutex<CriticalSectionRawMutex, u32> = BlockingMutex::new(7u32);
    let seen = container.with_lock(|n| *n);
    assert_eq!(seen, 7);
    let again = container.try_with_lock(|n| *n);
    assert_eq!(again, Some(7));
}

#[test]
fn no_updates_lost_in_sequence() {
    let mut container: BlockingMutex<CriticalSectionRawMutex, u64> = BlockingMutex::new(0u64);
    let rounds: u64 = 1000;
    let mut i: u64 = 0;
    while i < rounds {
        container.with_lock(|n| {
            let read = *n;
            *n = read + 1;
        });
        i += 1;
    }
    assert_eq!(container.into_inner(), rounds);
}

#[test]
fn raw_local_scoped_roundtrip() {
    let mut raw = LocalRawMutex::new();
    assert!(!raw.is_locked());
    let mut touched = false;
    let out = raw.try_with_lock(&mut touched, |t| {
        *t = true;
        5u8
    });
    assert_eq!(out, Some(5));
    assert!(touched);
    assert!(!raw.is_locked());
}

#[test]
fn raw_cs_scoped_roundtrip() {
    let mut raw = CriticalSectionRawMutex::new();
    assert!(!raw.is_locked());
    let mut payload: u32 = 3;
    let out = raw.with_lock(&mut payload, |p| {
        *p *= 2;
        *p
    });
    assert_eq!(out, 6);
    assert_eq!(payload, 6);
    assert!(!raw.is_locked());
}

#[test]
fn get_mut_without_locking() {
    let mut container: BlockingMutex<LocalRawMutex, i32> = BlockingMutex::new(-4i32);
    {
        let v = container.get_mut();
        *v += 5;
    }
    assert_eq!(container.into_inner(), 1);
}
