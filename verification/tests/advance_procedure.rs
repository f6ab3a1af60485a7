use state_advance::advance::{
    advance_head, ChainModel, Faults, HeadRef, ProposerRecord, ShufflingRecord, Snapshot,
    StateModel,
};
use state_advance::errors::{ChainFault, Error, StateFault, StoreFault};

const HEAD_BLOCK: u64 = 77;
const HEAD_STATE: u64 = 500;

/// A healthy chain whose snapshot cache holds a pre-state at `state_slot` for
/// the head, with fork choice stable.
fn chain(current_slot: u64, head_slot: u64, state_slot: u64) -> ChainModel {
    let head = HeadRef { block_root: HEAD_BLOCK, slot: head_slot, state_root: HEAD_STATE };
    ChainModel {
        slots_per_epoch: 32,
        current_slot,
        head,
        fork_choice_head: head,
        snapshot: Some(Snapshot {
            block_root: HEAD_BLOCK,
            state_root: HEAD_STATE,
            state: StateModel { slot: state_slot, seed: 9000, caches_built: false },
        }),
        head_updates: Vec::new(),
        proposer_inserts: Vec::new(),
        shuffling_inserts: Vec::new(),
        attester_offers: Vec::new(),
        monitor_notices: Vec::new(),
        persisted: Vec::new(),
        faults: Faults::none(),
    }
}

#[test]
fn advances_pre_state_exactly_one_slot() {
    let mut c = chain(100, 100, 100);
    assert_eq!(advance_head(&mut c), Ok(()));
    assert_eq!(c.persisted.len(), 1);
    assert_eq!(c.persisted[0].slot, 101);
    assert_eq!(c.attester_offers.len(), 1);
    assert_eq!(c.attester_offers[0].slot, 101);
    assert_eq!(c.attester_offers[0].block_root, HEAD_BLOCK);
    let snap = c.snapshot.unwrap();
    assert_eq!(snap.state.slot, 101);
    assert!(snap.state.caches_built);
}

#[test]
fn already_advanced_is_reported_without_transition() {
    let mut c = chain(100, 100, 101);
    let r = advance_head(&mut c);
    assert_eq!(r, Err(Error::StateAlreadyAdvanced { block_root: HEAD_BLOCK }));
    assert!(c.persisted.is_empty());
    assert!(c.proposer_inserts.is_empty());
    assert!(c.shuffling_inserts.is_empty());
    assert!(c.attester_offers.is_empty());
    assert!(c.monitor_notices.is_empty());
    // fork choice did run before the state was found advanced
    assert_eq!(c.head_updates.len(), 1);
}

#[test]
fn bad_state_slot_is_fatal_and_persists_nothing() {
    let mut behind = chain(100, 100, 99);
    let r = advance_head(&mut behind);
    assert_eq!(r, Err(Error::BadStateSlot { state_slot: 99, current_slot: 100 }));
    assert!(behind.persisted.is_empty());
    assert!(behind.attester_offers.is_empty());

    let mut ahead = chain(100, 100, 102);
    let r = advance_head(&mut ahead);
    assert_eq!(r, Err(Error::BadStateSlot { state_slot: 102, current_slot: 100 }));
    assert!(ahead.persisted.is_empty());
    assert!(ahead.proposer_inserts.is_empty());
}

#[test]
fn max_distance_refuses_before_fork_choice() {
    let mut c = chain(10, 5, 5);
    let r = advance_head(&mut c);
    assert_eq!(r, Err(Error::MaxDistanceExceeded { current_slot: 10, head_slot: 5 }));
    // no fork-choice re-run, no fetch, no persistence
    assert!(c.head_updates.is_empty());
    assert!(c.persisted.is_empty());
    assert!(c.attester_offers.is_empty());
}

#[test]
fn distance_of_exactly_four_slots_is_allowed() {
    // head at slot 6, current slot 10: lagging by the full margin, still run
    let mut c = chain(10, 6, 10);
    assert_eq!(advance_head(&mut c), Ok(()));
    assert_eq!(c.head_updates.len(), 1);
    assert_eq!(c.persisted.len(), 1);
    assert_eq!(c.persisted[0].slot, 11);
}

#[test]
fn epoch_boundary_primes_proposer_and_shuffling_caches() {
    // slot 31 -> 32 crosses from epoch 0 to epoch 1 (32 slots per epoch)
    let mut c = chain(31, 31, 31);
    assert_eq!(advance_head(&mut c), Ok(()));
    assert_eq!(
        c.proposer_inserts,
        vec![ProposerRecord { epoch: 1, decision_block: HEAD_BLOCK }]
    );
    assert_eq!(
        c.shuffling_inserts,
        vec![ShufflingRecord { shuffling_epoch: 2, decision_block: HEAD_BLOCK }]
    );
    assert_eq!(c.monitor_notices, vec![1]);
}

#[test]
fn mid_epoch_advance_primes_no_caches() {
    let mut c = chain(10, 10, 10);
    assert_eq!(advance_head(&mut c), Ok(()));
    assert!(c.proposer_inserts.is_empty());
    assert!(c.shuffling_inserts.is_empty());
    assert!(c.monitor_notices.is_empty());
    assert_eq!(c.persisted.len(), 1);
}

#[test]
fn end_to_end_scenario() {
    // head at slot 10, current slot 10, node synced: a state at slot 11 is
    // persisted and the procedure succeeds
    let mut c = chain(10, 10, 10);
    assert_eq!(advance_head(&mut c), Ok(()));
    assert_eq!(c.persisted.len(), 1);
    assert_eq!(c.persisted[0].slot, 11);

    // immediately re-invoked with the same current slot: already advanced,
    // no new write
    let r = advance_head(&mut c);
    assert_eq!(r, Err(Error::StateAlreadyAdvanced { block_root: HEAD_BLOCK }));
    assert_eq!(c.persisted.len(), 1);

    // head at slot 5, current slot 10: max-distance exceeded, no fork-choice
    // call observed
    let mut lagging = chain(10, 5, 5);
    let r = advance_head(&mut lagging);
    assert_eq!(r, Err(Error::MaxDistanceExceeded { current_slot: 10, head_slot: 5 }));
    assert!(lagging.head_updates.is_empty());
    assert!(lagging.persisted.is_empty());
}

#[test]
fn missing_snapshot_is_fatal() {
    let mut c = chain(100, 100, 100);
    c.snapshot = None;
    let r = advance_head(&mut c);
    assert_eq!(r, Err(Error::HeadMissingFromSnapshotCache(HEAD_BLOCK)));
    assert!(c.persisted.is_empty());
}

#[test]
fn snapshot_for_another_head_is_missing() {
    let mut c = chain(100, 100, 100);
    // fork choice moves the head to a block the snapshot cache does not hold
    c.fork_choice_head = HeadRef { block_root: 78, slot: 100, state_root: 501 };
    let r = advance_head(&mut c);
    assert_eq!(r, Err(Error::HeadMissingFromSnapshotCache(78)));
    assert!(c.persisted.is_empty());
}

#[test]
fn slot_clock_fault_aborts_first() {
    let mut c = chain(100, 100, 100);
    c.faults.slot_clock = true;
    assert_eq!(advance_head(&mut c), Err(Error::BeaconChain(ChainFault::SlotClock)));
    assert!(c.head_updates.is_empty());
    assert!(c.persisted.is_empty());
}

#[test]
fn fork_choice_fault_aborts_before_fetch() {
    let mut c = chain(100, 100, 100);
    c.faults.fork_choice = true;
    assert_eq!(advance_head(&mut c), Err(Error::BeaconChain(ChainFault::ForkChoice)));
    assert!(c.head_updates.is_empty());
    assert!(c.persisted.is_empty());
}

#[test]
fn transition_fault_aborts_without_side_effects() {
    let mut c = chain(100, 100, 100);
    c.faults.transition = true;
    assert_eq!(advance_head(&mut c), Err(Error::BeaconChain(ChainFault::SlotProcessing)));
    assert!(c.monitor_notices.is_empty());
    assert!(c.persisted.is_empty());
}

#[test]
fn committee_cache_fault_aborts() {
    let mut c = chain(100, 100, 100);
    c.faults.committee_cache = true;
    assert_eq!(
        advance_head(&mut c),
        Err(Error::BeaconState(StateFault::CommitteeCacheBuild))
    );
    assert!(c.persisted.is_empty());
}

#[test]
fn proposer_insert_fault_aborts_on_epoch_boundary() {
    let mut c = chain(31, 31, 31);
    c.faults.proposer_insert = true;
    assert_eq!(
        advance_head(&mut c),
        Err(Error::BeaconChain(ChainFault::ProposerCacheInsert))
    );
    assert!(c.proposer_inserts.is_empty());
    assert!(c.persisted.is_empty());

    // off the boundary the proposer cache is never touched, so no failure
    let mut mid = chain(10, 10, 10);
    mid.faults.proposer_insert = true;
    assert_eq!(advance_head(&mut mid), Ok(()));
}

#[test]
fn shuffling_lock_timeout_is_fatal_for_the_invocation() {
    let mut c = chain(31, 31, 31);
    c.faults.shuffling_lock_timeout = true;
    assert_eq!(
        advance_head(&mut c),
        Err(Error::BeaconChain(ChainFault::AttestationCacheLockTimeout))
    );
    // the proposer insert had already happened; nothing was persisted
    assert_eq!(c.proposer_inserts.len(), 1);
    assert!(c.shuffling_inserts.is_empty());
    assert!(c.persisted.is_empty());
}

#[test]
fn attester_cache_fault_aborts_before_persist() {
    let mut c = chain(100, 100, 100);
    c.faults.attester_cache = true;
    assert_eq!(advance_head(&mut c), Err(Error::BeaconChain(ChainFault::AttesterCache)));
    assert!(c.attester_offers.is_empty());
    assert!(c.persisted.is_empty());
}

#[test]
fn put_state_fault_discards_the_result() {
    let mut c = chain(100, 100, 100);
    c.faults.put_state = true;
    assert_eq!(advance_head(&mut c), Err(Error::Store(StoreFault::PutState)));
    assert!(c.persisted.is_empty());
    // the attester cache had already been offered the state: the accepted,
    // self-healing inconsistency window
    assert_eq!(c.attester_offers.len(), 1);
    // the snapshot still holds the un-advanced state
    assert_eq!(c.snapshot.unwrap().state.slot, 100);
}
