//! A minimal, portable mutual-exclusion layer.
//!
//! The crate separates the lock *mechanism* from the protected *data*: raw
//! locks implement only the exclusion protocol, and a blocking container
//! pairs one raw lock with one value, granting access to the value only
//! while the lock is held.

mod blocking;
mod traits;

pub mod raw_impls;

pub use blocking::law_const_init_equivalence;
pub use blocking::law_release_on_success;
pub use blocking::law_try_contention;
pub use blocking::BlockingMutex;
pub use blocking::MutexGuard;
pub use traits::law_manual_yields_scoped;
pub use traits::law_no_acquisition_while_held;
pub use traits::ConstInit;
pub use traits::RawMutex;
pub use traits::ScopedRawMutex;
