//! The advance-head procedure, verified over an explicit model of the chain.
//!
//! Near the end of slot `S` the worker tries to move the head state from slot
//! `S` to slot `S + 1` and no further: a state already at `S + 1` is reported
//! as already advanced, and any other slot is a fatal inconsistency. On the
//! way it re-runs fork choice, primes the committee, proposer and shuffling
//! caches, offers the state to the attester cache, and finally persists the
//! advanced state keyed by its content root.
//!
//! The collaborators (slot clock, fork choice, snapshot cache, duty caches,
//! store) live outside this crate; [`ChainModel`] stands for them here, with
//! the values the procedure reads and a log of every write it performs, plus a
//! fault switch per collaborator so that each failure path is part of the
//! verified behaviour. [`advance_outcome`] is the procedure's full
//! specification; [`advance_head`] is the executable body, proved equal to it.

use vstd::arithmetic::div_mod::{lemma_div_is_ordered, lemma_div_plus_one};
use vstd::prelude::*;

use crate::errors::{ChainFault, Error, StateFault, StoreFault};

verus! {

/// If the head slot is more than `MAX_ADVANCE_DISTANCE` behind the current
/// slot, the state advance is refused: the node is syncing or was suspended,
/// and speculative work would be wasted. A safety margin, not a protocol
/// constant.
pub const MAX_ADVANCE_DISTANCE: u64 = 4;

/// The head as fork choice reports it: block root, its slot, its state root.
/// Obtained fresh on every invocation, never cached across invocations.
#[derive(Clone, Copy, Debug, PartialEq, Eq, Structural)]
pub struct HeadRef {
    pub block_root: u64,
    pub slot: u64,
    pub state_root: u64,
}

/// A chain state, reduced to what the procedure reads and changes: its slot,
/// a stand-in for all remaining content, and whether the committee-lookup
/// caches for its current and next epoch have been built on it.
#[derive(Clone, Copy, Debug, PartialEq, Eq, Structural)]
pub struct StateModel {
    pub slot: u64,
    pub seed: u64,
    pub caches_built: bool,
}

/// The snapshot cache's entry for the head, keyed by the head's block root
/// and state root.
#[derive(Clone, Copy, Debug, PartialEq, Eq, Structural)]
pub struct Snapshot {
    pub block_root: u64,
    pub state_root: u64,
    pub state: StateModel,
}

/// One insert into the proposer-duty cache: duties for `epoch`, decided by
/// `decision_block`.
#[derive(Clone, Copy, Debug, PartialEq, Eq, Structural)]
pub struct ProposerRecord {
    pub epoch: u64,
    pub decision_block: u64,
}

/// One insert into the shuffling cache: the shuffling of `shuffling_epoch`
/// relative to `decision_block`.
#[derive(Clone, Copy, Debug, PartialEq, Eq, Structural)]
pub struct ShufflingRecord {
    pub shuffling_epoch: u64,
    pub decision_block: u64,
}

/// One offer of a state to the attester cache, which decides on its own
/// whether to retain it.
#[derive(Clone, Copy, Debug, PartialEq, Eq, Structural)]
pub struct AttesterOffer {
    pub block_root: u64,
    pub slot: u64,
}

/// One durable write of a state, keyed by its content root.
#[derive(Clone, Copy, Debug, PartialEq, Eq, Structural)]
pub struct PersistRecord {
    pub state_root: u64,
    pub slot: u64,
}

/// One switch per fallible collaborator call. A set switch makes that call
/// fail, so that every failure path of the procedure is exercised and
/// verified; a cleared switch makes it succeed.
#[derive(Clone, Copy, Debug, PartialEq, Eq, Structural)]
pub struct Faults {
    pub slot_clock: bool,
    pub fork_choice: bool,
    pub transition: bool,
    pub committee_cache: bool,
    pub proposer_insert: bool,
    pub shuffling_lock_timeout: bool,
    pub attester_cache: bool,
    pub put_state: bool,
}

impl Faults {
    /// Every collaborator call succeeds.
    pub fn none() -> (f: Faults)
        ensures
            fault_free(f),
    {
        Faults {
            slot_clock: false,
            fork_choice: false,
            transition: false,
            committee_cache: false,
            proposer_insert: false,
            shuffling_lock_timeout: false,
            attester_cache: false,
            put_state: false,
        }
    }
}

/// All fault switches cleared.
pub open spec fn fault_free(f: Faults) -> bool {
    &&& !f.slot_clock
    &&& !f.fork_choice
    &&& !f.transition
    &&& !f.committee_cache
    &&& !f.proposer_insert
    &&& !f.shuffling_lock_timeout
    &&& !f.attester_cache
    &&& !f.put_state
}

/// The chain collaborators as the procedure sees them: the values it reads,
/// and a log of every externally visible write.
pub struct ChainModel {
    /// Slots per epoch; a protocol constant, at least 1.
    pub slots_per_epoch: u64,
    /// What the slot clock reads now.
    pub current_slot: u64,
    /// The head as last derived; possibly stale relative to attestations
    /// received since the last fork-choice run.
    pub head: HeadRef,
    /// The head that a fork-choice re-run would install.
    pub fork_choice_head: HeadRef,
    /// The snapshot cache's entry for the head state, if any.
    pub snapshot: Option<Snapshot>,
    /// Log of fork-choice re-runs: the head each run installed.
    pub head_updates: Vec<HeadRef>,
    /// Log of proposer-duty cache inserts.
    pub proposer_inserts: Vec<ProposerRecord>,
    /// Log of shuffling cache inserts.
    pub shuffling_inserts: Vec<ShufflingRecord>,
    /// Log of states offered to the attester cache.
    pub attester_offers: Vec<AttesterOffer>,
    /// Log of epochs the validator monitor was given a transition summary for.
    pub monitor_notices: Vec<u64>,
    /// Log of durable state writes.
    pub persisted: Vec<PersistRecord>,
    /// Which collaborator calls fail this invocation.
    pub faults: Faults,
}

/// The mathematical value of a [`ChainModel`].
#[verifier::ext_equal]
pub struct ChainView {
    pub slots_per_epoch: u64,
    pub current_slot: u64,
    pub head: HeadRef,
    pub fork_choice_head: HeadRef,
    pub snapshot: Option<Snapshot>,
    pub head_updates: Seq<HeadRef>,
    pub proposer_inserts: Seq<ProposerRecord>,
    pub shuffling_inserts: Seq<ShufflingRecord>,
    pub attester_offers: Seq<AttesterOffer>,
    pub monitor_notices: Seq<u64>,
    pub persisted: Seq<PersistRecord>,
    pub faults: Faults,
}

impl View for ChainModel {
    type V = ChainView;

    open spec fn view(&self) -> ChainView {
        ChainView {
            slots_per_epoch: self.slots_per_epoch,
            current_slot: self.current_slot,
            head: self.head,
            fork_choice_head: self.fork_choice_head,
            snapshot: self.snapshot,
            head_updates: self.head_updates@,
            proposer_inserts: self.proposer_inserts@,
            shuffling_inserts: self.shuffling_inserts@,
            attester_offers: self.attester_offers@,
            monitor_notices: self.monitor_notices@,
            persisted: self.persisted@,
            faults: self.faults,
        }
    }
}

impl ChainView {
    /// Well-formedness: epochs are non-empty, and the slot number leaves room
    /// to advance one slot and to name the epoch after the next one.
    pub open spec fn wf(self) -> bool {
        &&& self.slots_per_epoch >= 1
        &&& self.current_slot + 2 <= u64::MAX
    }
}

/// The epoch a slot belongs to.
pub open spec fn epoch_of(slot: u64, slots_per_epoch: u64) -> u64 {
    slot / slots_per_epoch
}

/// Whether the snapshot cache entry is the one keyed by this head.
pub open spec fn snapshot_matches(snap: Snapshot, head: HeadRef) -> bool {
    snap.block_root == head.block_root && snap.state_root == head.state_root
}

/// The model's stand-in for a state's tree-hash root: deterministic in the
/// state's content (its slot and seed).
pub open spec fn state_root_of(s: StateModel) -> u64 {
    s.seed ^ s.slot
}

/// The full specification of one advance-head invocation on chain `c`: the
/// chain afterwards, and the reported outcome. Steps, each a hard gate on the
/// next: read the clock; refuse if the head lags by more than
/// [`MAX_ADVANCE_DISTANCE`]; re-run fork choice; fetch the head's pre-state
/// from the snapshot cache; require it to sit exactly at the current slot;
/// advance it one slot (notifying the monitor when the transition crosses an
/// epoch boundary); build its committee caches; on an epoch boundary, prime
/// the proposer cache for the new epoch and the shuffling cache for the one
/// after it, both keyed by the head block; offer the state to the attester
/// cache; persist it keyed by its content root, which also refreshes the
/// snapshot so a re-run in the same slot finds the state already advanced.
pub open spec fn advance_outcome(c: ChainView) -> (ChainView, Result<(), Error>) {
    if c.faults.slot_clock {
        (c, Err(Error::BeaconChain(ChainFault::SlotClock)))
    } else if c.head.slot + MAX_ADVANCE_DISTANCE < c.current_slot {
        (
            c,
            Err(
                Error::MaxDistanceExceeded {
                    current_slot: c.current_slot,
                    head_slot: c.head.slot,
                },
            ),
        )
    } else if c.faults.fork_choice {
        (c, Err(Error::BeaconChain(ChainFault::ForkChoice)))
    } else {
        let head = c.fork_choice_head;
        let c1 = ChainView { head, head_updates: c.head_updates.push(head), ..c };
        if !(c.snapshot matches Some(snap) && snapshot_matches(snap, head)) {
            (c1, Err(Error::HeadMissingFromSnapshotCache(head.block_root)))
        } else {
            let pre = c.snapshot->Some_0.state;
            if pre.slot == c.current_slot + 1 {
                (c1, Err(Error::StateAlreadyAdvanced { block_root: head.block_root }))
            } else if pre.slot != c.current_slot {
                (
                    c1,
                    Err(
                        Error::BadStateSlot {
                            state_slot: pre.slot,
                            current_slot: c.current_slot,
                        },
                    ),
                )
            } else if c.faults.transition {
                (c1, Err(Error::BeaconChain(ChainFault::SlotProcessing)))
            } else {
                let advanced = StateModel {
                    slot: (pre.slot + 1) as u64,
                    caches_built: false,
                    ..pre
                };
                let crossed = epoch_of(advanced.slot, c.slots_per_epoch) != epoch_of(
                    pre.slot,
                    c.slots_per_epoch,
                );
                let c2 = if crossed {
                    ChainView {
                        monitor_notices: c1.monitor_notices.push(
                            epoch_of(advanced.slot, c.slots_per_epoch),
                        ),
                        ..c1
                    }
                } else {
                    c1
                };
                if c.faults.committee_cache {
                    (c2, Err(Error::BeaconState(StateFault::CommitteeCacheBuild)))
                } else {
                    let ready = StateModel { caches_built: true, ..advanced };
                    if crossed && c.faults.proposer_insert {
                        (c2, Err(Error::BeaconChain(ChainFault::ProposerCacheInsert)))
                    } else {
                        let c3 = if crossed {
                            ChainView {
                                proposer_inserts: c2.proposer_inserts.push(
                                    ProposerRecord {
                                        epoch: epoch_of(ready.slot, c.slots_per_epoch),
                                        decision_block: head.block_root,
                                    },
                                ),
                                ..c2
                            }
                        } else {
                            c2
                        };
                        if crossed && c.faults.shuffling_lock_timeout {
                            (
                                c3,
                                Err(
                                    Error::BeaconChain(ChainFault::AttestationCacheLockTimeout),
                                ),
                            )
                        } else {
                            let c4 = if crossed {
                                ChainView {
                                    shuffling_inserts: c3.shuffling_inserts.push(
                                        ShufflingRecord {
                                            shuffling_epoch: (epoch_of(
                                                ready.slot,
                                                c.slots_per_epoch,
                                            ) + 1) as u64,
                                            decision_block: head.block_root,
                                        },
                                    ),
                                    ..c3
                                }
                            } else {
                                c3
                            };
                            if c.faults.attester_cache {
                                (c4, Err(Error::BeaconChain(ChainFault::AttesterCache)))
                            } else {
                                let c5 = ChainView {
                                    attester_offers: c4.attester_offers.push(
                                        AttesterOffer {
                                            block_root: head.block_root,
                                            slot: ready.slot,
                                        },
                                    ),
                                    ..c4
                                };
                                if c.faults.put_state {
                                    (c5, Err(Error::Store(StoreFault::PutState)))
                                } else {
                                    let c6 = ChainView {
                                        persisted: c5.persisted.push(
                                            PersistRecord {
                                                state_root: state_root_of(ready),
                                                slot: ready.slot,
                                            },
                                        ),
                                        snapshot: Some(
                                            Snapshot {
                                                block_root: head.block_root,
                                                state_root: head.state_root,
                                                state: ready,
                                            },
                                        ),
                                        ..c5
                                    };
                                    (c6, Ok(()))
                                }
                            }
                        }
                    }
                }
            }
        }
    }
}

/// Advance the head state of `chain` a single slot, per [`advance_outcome`].
pub fn advance_head(chain: &mut ChainModel) -> (r: Result<(), Error>)
    requires
        old(chain)@.wf(),
    ensures
        final(chain)@ == advance_outcome(old(chain)@).0,
        r == advance_outcome(old(chain)@).1,
        final(chain)@.wf(),
{
    let ghost c0: ChainView = chain@;

    // Read the current slot from the slot clock.
    if chain.faults.slot_clock {
        return Err(Error::from(ChainFault::SlotClock));
    }
    let current_slot: u64 = chain.current_slot;

    // The head slot read here may be invalidated by the fork-choice re-run
    // below, so it is used for the distance check alone.
    let head_slot: u64 = chain.head.slot;

    // Don't run this when syncing or if lagging too far behind.
    if head_slot < current_slot && current_slot - head_slot > MAX_ADVANCE_DISTANCE {
        proof {
            assert(chain@ =~= advance_outcome(c0).0);
        }
        return Err(Error::MaxDistanceExceeded { current_slot, head_slot });
    }

    // Re-run fork choice for the latest view of the head: attestations
    // received since the last run may have moved it.
    if chain.faults.fork_choice {
        return Err(Error::from(ChainFault::ForkChoice));
    }
    let head: HeadRef = chain.fork_choice_head;
    chain.head = head;
    chain.head_updates.push(head);

    // Fetch the pre-state for (head block root, current slot, head state
    // root) from the snapshot cache.
    let cached: bool = match &chain.snapshot {
        Some(snap) => snap.block_root == head.block_root && snap.state_root == head.state_root,
        None => false,
    };
    if !cached {
        proof {
            assert(chain@ =~= advance_outcome(c0).0);
        }
        return Err(Error::HeadMissingFromSnapshotCache(head.block_root));
    }
    let pre: StateModel = chain.snapshot.unwrap().state;

    // The pre-state must sit exactly at the current slot: one slot further
    // means another path already advanced it this round; anything else would
    // have us advance more than a single slot, which would leave a gap in the
    // stored history and is never done.
    if pre.slot == current_slot + 1 {
        proof {
            assert(chain@ =~= advance_outcome(c0).0);
        }
        return Err(Error::StateAlreadyAdvanced { block_root: head.block_root });
    } else if pre.slot != current_slot {
        proof {
            assert(chain@ =~= advance_outcome(c0).0);
        }
        return Err(Error::BadStateSlot { state_slot: pre.slot, current_slot });
    }

    let initial_epoch: u64 = pre.slot / chain.slots_per_epoch;

    // Advance the state a single slot.
    if chain.faults.transition {
        proof {
            assert(chain@ =~= advance_outcome(c0).0);
        }
        return Err(Error::from(ChainFault::SlotProcessing));
    }
    let advanced = StateModel { slot: pre.slot + 1, seed: pre.seed, caches_built: false };
    let post_epoch: u64 = advanced.slot / chain.slots_per_epoch;
    let crossed: bool = post_epoch != initial_epoch;

    // The transition reports an epoch summary exactly when it crossed an
    // epoch boundary; forward it to the validator monitor. A monitor failure
    // is logged by the caller and never aborts the procedure.
    if crossed {
        chain.monitor_notices.push(post_epoch);
    }

    // Build the committee-lookup caches for the state's current epoch and the
    // one after it, to prepare proposer and attester duty computation.
    if chain.faults.committee_cache {
        proof {
            assert(chain@ =~= advance_outcome(c0).0);
        }
        return Err(Error::from(StateFault::CommitteeCacheBuild));
    }
    let ready = StateModel { slot: advanced.slot, seed: advanced.seed, caches_built: true };

    // If the transition crossed an epoch boundary, pre-emptively prime the
    // proposer cache for the new epoch and the shuffling cache for the one
    // after it. The head block is the decision block for both: the distance
    // check above guarantees it is the latest block from the prior epoch.
    if crossed {
        if chain.faults.proposer_insert {
            proof {
                assert(chain@ =~= advance_outcome(c0).0);
            }
            return Err(Error::from(ChainFault::ProposerCacheInsert));
        }
        chain.proposer_inserts.push(
            ProposerRecord { epoch: post_epoch, decision_block: head.block_root },
        );

        if chain.faults.shuffling_lock_timeout {
            proof {
                assert(chain@ =~= advance_outcome(c0).0);
            }
            return Err(Error::from(ChainFault::AttestationCacheLockTimeout));
        }
        chain.shuffling_inserts.push(
            ShufflingRecord { shuffling_epoch: post_epoch + 1, decision_block: head.block_root },
        );
    }

    // Offer the state to the attester cache, which decides on its own whether
    // it is worth retaining.
    if chain.faults.attester_cache {
        proof {
            assert(chain@ =~= advance_outcome(c0).0);
        }
        return Err(Error::from(ChainFault::AttesterCache));
    }
    chain.attester_offers.push(AttesterOffer { block_root: head.block_root, slot: ready.slot });

    // Compute the state's content root and write the advanced state to the
    // database: the single point at which this invocation becomes durable.
    if chain.faults.put_state {
        proof {
            assert(chain@ =~= advance_outcome(c0).0);
        }
        return Err(Error::from(StoreFault::PutState));
    }
    let root: u64 = ready.seed ^ ready.slot;
    chain.persisted.push(PersistRecord { state_root: root, slot: ready.slot });
    chain.snapshot = Some(
        Snapshot { block_root: head.block_root, state_root: head.state_root, state: ready },
    );

    proof {
        assert(chain@ =~= advance_outcome(c0).0);
    }
    Ok(())
}

/// The gates up to the pre-state fetch all pass: the clock is readable, the
/// head is within the advance distance, fork choice succeeds, and the
/// snapshot cache holds an entry for the fork-choice head.
pub open spec fn reaches_pre_state(c: ChainView) -> bool {
    &&& !c.faults.slot_clock
    &&& !(c.head.slot + MAX_ADVANCE_DISTANCE < c.current_slot)
    &&& !c.faults.fork_choice
    &&& c.snapshot matches Some(snap) && snapshot_matches(snap, c.fork_choice_head)
}

/// The state a successful invocation persists: the cached pre-state moved one
/// slot forward, with its committee caches built.
pub open spec fn advanced_state_of(c: ChainView) -> StateModel {
    StateModel {
        slot: (c.current_slot + 1) as u64,
        seed: c.snapshot->Some_0.state.seed,
        caches_built: true,
    }
}

/// Advancing a slot moves the epoch forward by either zero or one.
proof fn lemma_epoch_step(slot: u64, slots_per_epoch: u64)
    requires
        slots_per_epoch >= 1,
        slot < u64::MAX,
    ensures
        epoch_of(slot, slots_per_epoch) <= epoch_of((slot + 1) as u64, slots_per_epoch),
        epoch_of((slot + 1) as u64, slots_per_epoch) <= epoch_of(slot, slots_per_epoch) + 1,
{
    let s = slot as int;
    let d = slots_per_epoch as int;
    lemma_div_is_ordered(s, s + 1, d);
    lemma_div_is_ordered(s + 1, s + d, d);
    lemma_div_plus_one(s, d);
}

/// For a pre-state at exactly the current slot, with every collaborator
/// healthy, the procedure succeeds, and it advances to exactly one slot past
/// the current slot: the persisted log grows by a single state whose slot is
/// `current_slot + 1`, and the snapshot cache afterwards holds that state.
pub proof fn lemma_advances_exactly_one_slot(c: ChainView)
    requires
        c.wf(),
        fault_free(c.faults),
        reaches_pre_state(c),
        c.snapshot->Some_0.state.slot == c.current_slot,
    ensures
        advance_outcome(c).1 is Ok,
        advance_outcome(c).0.persisted == c.persisted.push(
            PersistRecord {
                state_root: state_root_of(advanced_state_of(c)),
                slot: (c.current_slot + 1) as u64,
            },
        ),
        advance_outcome(c).0.snapshot matches Some(snap) && snap.state.slot == c.current_slot + 1,
{
}

/// For a pre-state already one slot past the current slot, the procedure
/// performs no transition and reports the state as already advanced: nothing
/// is persisted and no cache receives an insert.
pub proof fn lemma_already_advanced(c: ChainView)
    requires
        !c.faults.slot_clock,
        !(c.head.slot + MAX_ADVANCE_DISTANCE < c.current_slot),
        !c.faults.fork_choice,
        c.snapshot matches Some(snap) && snapshot_matches(snap, c.fork_choice_head),
        c.snapshot->Some_0.state.slot == c.current_slot + 1,
    ensures
        advance_outcome(c).1 == Err::<(), Error>(
            Error::StateAlreadyAdvanced { block_root: c.fork_choice_head.block_root },
        ),
        advance_outcome(c).0.persisted == c.persisted,
        advance_outcome(c).0.proposer_inserts == c.proposer_inserts,
        advance_outcome(c).0.shuffling_inserts == c.shuffling_inserts,
        advance_outcome(c).0.attester_offers == c.attester_offers,
        advance_outcome(c).0.monitor_notices == c.monitor_notices,
        advance_outcome(c).0.snapshot == c.snapshot,
{
}

/// For a pre-state at neither the current slot nor the one after it, the
/// procedure performs no transition, persists nothing, and reports a fatal
/// inconsistency.
pub proof fn lemma_bad_state_slot(c: ChainView)
    requires
        !c.faults.slot_clock,
        !(c.head.slot + MAX_ADVANCE_DISTANCE < c.current_slot),
        !c.faults.fork_choice,
        c.snapshot matches Some(snap) && snapshot_matches(snap, c.fork_choice_head),
        c.snapshot->Some_0.state.slot != c.current_slot,
        c.snapshot->Some_0.state.slot != c.current_slot + 1,
    ensures
        advance_outcome(c).1 == Err::<(), Error>(
            Error::BadStateSlot {
                state_slot: c.snapshot->Some_0.state.slot,
                current_slot: c.current_slot,
            },
        ),
        advance_outcome(c).0.persisted == c.persisted,
        advance_outcome(c).0.proposer_inserts == c.proposer_inserts,
        advance_outcome(c).0.shuffling_inserts == c.shuffling_inserts,
        advance_outcome(c).0.attester_offers == c.attester_offers,
        advance_outcome(c).0.monitor_notices == c.monitor_notices,
        advance_outcome(c).0.snapshot == c.snapshot,
{
}

/// When the head lags the current slot by more than the advance distance, the
/// procedure refuses at once: no fork-choice re-run, no state fetch, no
/// persistence — the chain is untouched.
pub proof fn lemma_max_distance_short_circuits(c: ChainView)
    requires
        !c.faults.slot_clock,
        c.head.slot + MAX_ADVANCE_DISTANCE < c.current_slot,
    ensures
        advance_outcome(c).1 == Err::<(), Error>(
            Error::MaxDistanceExceeded { current_slot: c.current_slot, head_slot: c.head.slot },
        ),
        advance_outcome(c).0 == c,
{
}

/// When a successful invocation crosses an epoch boundary (pre-state epoch
/// `E`, post-state epoch `E + 1`), the proposer cache receives exactly one
/// insert, for epoch `E + 1` keyed by the head block, and the shuffling cache
/// exactly one, for the shuffling of epoch `E + 2` relative to that same
/// decision block. When the epoch does not change, neither receives any.
pub proof fn lemma_epoch_boundary_cache_priming(c: ChainView)
    requires
        c.wf(),
        fault_free(c.faults),
        reaches_pre_state(c),
        c.snapshot->Some_0.state.slot == c.current_slot,
    ensures
        epoch_of((c.current_slot + 1) as u64, c.slots_per_epoch) != epoch_of(
            c.current_slot,
            c.slots_per_epoch,
        ) ==> {
            &&& advance_outcome(c).0.proposer_inserts == c.proposer_inserts.push(
                ProposerRecord {
                    epoch: (epoch_of(c.current_slot, c.slots_per_epoch) + 1) as u64,
                    decision_block: c.fork_choice_head.block_root,
                },
            )
            &&& advance_outcome(c).0.shuffling_inserts == c.shuffling_inserts.push(
                ShufflingRecord {
                    shuffling_epoch: (epoch_of(c.current_slot, c.slots_per_epoch) + 2) as u64,
                    decision_block: c.fork_choice_head.block_root,
                },
            )
        },
        epoch_of((c.current_slot + 1) as u64, c.slots_per_epoch) == epoch_of(
            c.current_slot,
            c.slots_per_epoch,
        ) ==> {
            &&& advance_outcome(c).0.proposer_inserts == c.proposer_inserts
            &&& advance_outcome(c).0.shuffling_inserts == c.shuffling_inserts
        },
{
    lemma_epoch_step(c.current_slot, c.slots_per_epoch);
}

/// Idempotence under duplicate triggers: invoking the procedure twice in
/// immediate succession for the same slot (fork choice stable in between)
/// yields one real advance and one already-advanced report — never two
/// persisted states for the same target slot.
pub proof fn lemma_idempotent_within_slot(c: ChainView)
    requires
        c.wf(),
        fault_free(c.faults),
        c.head == c.fork_choice_head,
        !(c.head.slot + MAX_ADVANCE_DISTANCE < c.current_slot),
        c.snapshot matches Some(snap) && snapshot_matches(snap, c.fork_choice_head),
        c.snapshot->Some_0.state.slot == c.current_slot,
    ensures
        advance_outcome(c).1 is Ok,
        advance_outcome(c).0.persisted == c.persisted.push(
            PersistRecord {
                state_root: state_root_of(advanced_state_of(c)),
                slot: (c.current_slot + 1) as u64,
            },
        ),
        advance_outcome(advance_outcome(c).0).1 == Err::<(), Error>(
            Error::StateAlreadyAdvanced { block_root: c.fork_choice_head.block_root },
        ),
        advance_outcome(advance_outcome(c).0).0.persisted == advance_outcome(c).0.persisted,
{
    let c1 = advance_outcome(c).0;
    assert(c1.faults == c.faults);
    assert(c1.head == c.fork_choice_head);
    assert(c1.fork_choice_head == c.fork_choice_head);
    assert(c1.current_slot == c.current_slot);
    assert(c1.snapshot matches Some(snap) && snapshot_matches(snap, c1.fork_choice_head));
    assert(c1.snapshot->Some_0.state.slot == c.current_slot + 1);
}

/// Side effects are strictly additive: on every failure path nothing is
/// persisted — only a completed invocation ever writes a state.
pub proof fn lemma_no_persist_on_failure(c: ChainView)
    ensures
        advance_outcome(c).1 is Err ==> advance_outcome(c).0.persisted == c.persisted,
{
}

} // verus!
