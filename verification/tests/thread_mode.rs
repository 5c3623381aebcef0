//! The single-core thread-mode mechanism, with the execution-mode read
//! simulated through `set_mode`.

use mutex::raw_impls::single_core_thread_mode::ExecutionMode;
use mutex::raw_impls::single_core_thread_mode::ThreadModeRawMutex;
use mutex::BlockingMutex;
use mutex::ScopedRawMutex;

#[test]
fn thread_mode_allows_access() {
    let mut raw = ThreadModeRawMutex::new();
    let mut payload: u64 = 1;
    let out = raw.try_with_lock(&mut payload, |p| {
        *p += 1;
        *p
    });
    assert_eq!(out, Some(2));
    assert!(!raw.is_locked());
}

#[test]
fn interrupt_mode_refuses_without_calling_closure() {
    let mut raw = ThreadModeRawMutex::new();
    raw.set_mode(ExecutionMode::Interrupt);
    let mut payload: u64 = 1;
    let mut invoked = false;
    let out = raw.try_with_lock(&mut payload, |_p| {
        invoked = true;
        0u8
    });
    assert_eq!(out, None);
    assert!(!invoked);
    assert_eq!(payload, 1);
    assert!(!raw.is_locked());
}

#[test]
fn back_in_thread_mode_access_succeeds_again() {
    let mut raw = ThreadModeRawMutex::new();
    raw.set_mode(ExecutionMode::Interrupt);
    let mut payload: u8 = 0;
    assert_eq!(raw.try_with_lock(&mut payload, |p| *p), None);
    raw.set_mode(ExecutionMode::Thread);
    assert_eq!(raw.try_with_lock(&mut payload, |p| *p), Some(0));
}

#[test]
fn container_over_thread_mode_mutex() {
    let mut container: BlockingMutex<ThreadModeRawMutex, u16> = BlockingMutex::new(40u16);
    let out = container.with_lock(|n| {
        *n += 2;
        *n
    });
    assert_eq!(out, 42);
    assert_eq!(container.into_inner(), 42);
}

#[test]
fn dispose_from_thread_mode() {
    let raw = ThreadModeRawMutex::new();
    raw.dispose();
}
