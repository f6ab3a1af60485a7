//! A single-flight lock used to coordinate the scheduler and its worker.
//!
//! At most one advance operation may run at a time. The scheduler test-and-sets
//! the flag before dispatching a worker; a trigger that finds the flag already
//! set is dropped (never queued), and the worker clears the flag when it
//! finishes, successfully or not.

use vstd::prelude::*;

verus! {

/// Provides a simple lock to be used for task co-ordination. Practically
/// equivalent to a non-blocking try-acquire mutex over no data.
pub struct Lock {
    held: bool,
}

impl Lock {
    /// Whether the lock is currently held by a worker.
    pub closed spec fn is_held(&self) -> bool {
        self.held
    }

    /// Instantiate an unlocked self.
    pub fn new() -> (r: Lock)
        ensures
            !r.is_held(),
    {
        Lock { held: false }
    }

    /// Lock self, returning `true` if the lock was already set.
    ///
    /// This is a test-and-set: the lock is held afterwards in every case, and
    /// the return value tells the caller whether it was the one to take it.
    /// `lock` returns `false` exactly once per unlock cycle: every further
    /// call before `unlock` returns `true`.
    pub fn lock(&mut self) -> (was_held: bool)
        ensures
            was_held == old(self).is_held(),
            final(self).is_held(),
    {
        let was_held = self.held;
        self.held = true;
        was_held
    }

    /// Unlock self.
    pub fn unlock(&mut self)
        ensures
            !final(self).is_held(),
    {
        self.held = false;
    }
}

} // verus!
