//! Decisions of the scheduler loop.
//!
//! The loop itself is a process-lifetime background task living outside this
//! crate: it sleeps, wakes near the end of each slot, and — when the
//! single-flight lock is free — hands the advance-head procedure to a worker.
//! What it decides each round is computed and verified here: how long to
//! sleep, and whether to dispatch or drop the trigger.

use vstd::prelude::*;

use crate::lock::Lock;

verus! {

/// How long the scheduler sleeps before its next wake.
#[derive(Clone, Copy, Debug, PartialEq, Eq, Structural)]
pub enum TimerWait {
    /// The clock produced the duration to the next slot boundary: wake late in
    /// the current slot, shortly before the next begins.
    UntilSlotTail { delay_millis: u64 },
    /// The clock could not produce a duration: wait one full slot and retry.
    /// A recoverable condition, never fatal.
    RetryAfterSlot { delay_millis: u64 },
}

/// Compute the sleep before the next wake. On a readable clock the wake lands
/// three-quarters of the way through the slot's final quarter: the time to
/// the next slot boundary plus three quarters of a slot duration.
pub fn wake_delay(duration_to_next_slot_millis: Option<u64>, slot_duration_millis: u64) -> (w:
    TimerWait)
    requires
        duration_to_next_slot_millis matches Some(d) ==> d + (slot_duration_millis / 4) * 3
            <= u64::MAX,
    ensures
        match w {
            TimerWait::UntilSlotTail { delay_millis } => {
                &&& duration_to_next_slot_millis matches Some(d) && delay_millis == d + (
                slot_duration_millis / 4) * 3
            },
            TimerWait::RetryAfterSlot { delay_millis } => {
                &&& duration_to_next_slot_millis is None
                &&& delay_millis == slot_duration_millis
            },
        },
{
    match duration_to_next_slot_millis {
        Some(d) => TimerWait::UntilSlotTail {
            delay_millis: d + (slot_duration_millis / 4) * 3,
        },
        None => TimerWait::RetryAfterSlot { delay_millis: slot_duration_millis },
    }
}

/// What the scheduler does with one wake.
#[derive(Clone, Copy, Debug, PartialEq, Eq, Structural)]
pub enum SchedulerAction {
    /// The lock was free: hand the advance-head procedure to a worker, which
    /// must unlock when it finishes, successfully or not.
    Dispatch,
    /// The previous worker still runs: drop this trigger (never queue it) and
    /// record an overload observation.
    SkipOverloaded,
}

/// On wake, test-and-set the single-flight lock. Exactly the caller that
/// found it free dispatches a worker; any other trigger is dropped.
pub fn on_wake(lock: &mut Lock) -> (a: SchedulerAction)
    ensures
        a is Dispatch <==> !old(lock).is_held(),
        final(lock).is_held(),
{
    if !lock.lock() {
        SchedulerAction::Dispatch
    } else {
        SchedulerAction::SkipOverloaded
    }
}

} // verus!
