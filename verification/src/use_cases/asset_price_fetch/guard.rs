//! In-flight guard ensuring at most one fetch task runs at a time.

use std::sync::atomic::{AtomicBool, Ordering};
use std::sync::Arc;
use vstd::prelude::*;

verus! {

/// Lease on the in-flight flag; dropping it clears the flag, so moving the
/// lease into the background task releases the guard even if the task panics.
#[derive(Debug)]
pub struct FetchGuardLease {
    flag: Arc<AtomicBool>,
}

impl FetchGuardLease {
    /// The flag this lease clears when dropped.
    pub closed spec fn flag(&self) -> Arc<AtomicBool> {
        self.flag
    }
}

impl Drop for FetchGuardLease {
    fn drop(&mut self)
        opens_invariants none
        no_unwind
    {
        clear_flag(&self.flag);
    }
}

/// Calls `AtomicBool::store(false, Ordering::Release)`. The contract claims
/// only that the call returns without unwinding and opens no invariant:
/// `store` panics only for the `Acquire` and `AcqRel` orderings, which are not
/// passed. Nothing is claimed about the flag's value afterwards.
#[verifier::external_body]
fn clear_flag(flag: &AtomicBool)
    opens_invariants none
    no_unwind
{
    flag.store(false, Ordering::Release);
}

/// Global in-flight guard.
#[derive(Debug)]
pub struct FetchGuard {
    running: Arc<AtomicBool>,
}

impl FetchGuard {
    /// The in-flight flag.
    pub closed spec fn flag(&self) -> Arc<AtomicBool> {
        self.running
    }

    /// Creates a guard in the released state.
    pub fn new() -> (g: FetchGuard) {
        FetchGuard { running: Arc::new(AtomicBool::new(false)) }
    }

    /// Takes the guard if it is free: `Some(lease)` when the flag went from
    /// clear to set, `None` when a lease is already out.
    pub fn try_acquire(self: &Arc<Self>) -> (lease: Option<FetchGuardLease>)
        ensures
            lease matches Some(l) ==> l.flag() == self.flag(),
    {
        match self.running.compare_exchange(false, true, Ordering::AcqRel, Ordering::Acquire) {
            Ok(_) => Some(FetchGuardLease { flag: self.running.clone() }),
            Err(_) => None,
        }
    }
}

} // verus!
