//! Outcomes of an advance-head invocation.
//!
//! None of these ever halts the scheduler: the worker reports its outcome and
//! the loop simply tries again next slot. `MaxDistanceExceeded` and
//! `StateAlreadyAdvanced` are expected, benign refusals; `BadStateSlot` is a
//! fatal-for-this-invocation inconsistency; the remaining variants wrap a
//! failure of one of the chain collaborators.

use vstd::prelude::*;

verus! {

/// A failure reported by the chain collaborator (slot clock, fork choice,
/// slot processing, or one of the duty caches).
#[derive(Clone, Copy, Debug, PartialEq, Eq, Structural)]
pub enum ChainFault {
    /// The slot clock could not produce the current slot.
    SlotClock,
    /// The fork choice re-run failed.
    ForkChoice,
    /// The one-slot state transition failed.
    SlotProcessing,
    /// The proposer-duty cache rejected the insert.
    ProposerCacheInsert,
    /// The shuffling cache's bounded-wait exclusive access timed out.
    AttestationCacheLockTimeout,
    /// The attester cache failed while considering the state.
    AttesterCache,
}

/// A failure raised while operating on the state itself.
#[derive(Clone, Copy, Debug, PartialEq, Eq, Structural)]
pub enum StateFault {
    /// A committee-lookup cache could not be built on the state.
    CommitteeCacheBuild,
}

/// A failure reported by the storage engine.
#[derive(Clone, Copy, Debug, PartialEq, Eq, Structural)]
pub enum StoreFault {
    /// Persisting the advanced state failed.
    PutState,
}

/// The outcome of one advance-head invocation, when it is not a success.
#[derive(Clone, Copy, Debug, PartialEq, Eq, Structural)]
pub enum Error {
    BeaconChain(ChainFault),
    BeaconState(StateFault),
    Store(StoreFault),
    /// The head's pre-state was evicted from (or never stored in) the
    /// snapshot cache; the payload is the head block root.
    HeadMissingFromSnapshotCache(u64),
    /// The head lags the current slot by more than the safety margin: the
    /// node is syncing, and speculative advance would be wasted work.
    MaxDistanceExceeded { current_slot: u64, head_slot: u64 },
    /// Another path already advanced the state this round.
    StateAlreadyAdvanced { block_root: u64 },
    /// The pre-state sits at neither the current slot nor the one after it:
    /// a cache or store defect upstream, never silently corrected.
    BadStateSlot { state_slot: u64, current_slot: u64 },
}

impl From<ChainFault> for Error {
    fn from(e: ChainFault) -> (r: Self) {
        Error::BeaconChain(e)
    }
}

impl vstd::std_specs::convert::FromSpecImpl<ChainFault> for Error {
    open spec fn obeys_from_spec() -> bool {
        true
    }

    open spec fn from_spec(e: ChainFault) -> Self {
        Error::BeaconChain(e)
    }
}

impl From<StateFault> for Error {
    fn from(e: StateFault) -> (r: Self) {
        Error::BeaconState(e)
    }
}

impl vstd::std_specs::convert::FromSpecImpl<StateFault> for Error {
    open spec fn obeys_from_spec() -> bool {
        true
    }

    open spec fn from_spec(e: StateFault) -> Self {
        Error::BeaconState(e)
    }
}

impl From<StoreFault> for Error {
    fn from(e: StoreFault) -> (r: Self) {
        Error::Store(e)
    }
}

impl vstd::std_specs::convert::FromSpecImpl<StoreFault> for Error {
    open spec fn obeys_from_spec() -> bool {
        true
    }

    open spec fn from_spec(e: StoreFault) -> Self {
        Error::Store(e)
    }
}

} // verus!
