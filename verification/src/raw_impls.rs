//! Concrete raw lock mechanisms.
//!
//! Each mechanism trades generality for cost: the critical-section lock
//! may be shared with interrupt contexts and other cores, the local lock
//! works only within a single thread or task, and the thread-mode lock is
//! shareable on a single-core target as long as all access happens
//! outside interrupt context.

pub mod cs;
pub mod local;
pub mod single_core_thread_mode;
