//! The decision core of irreversible historic-state pruning.
//!
//! Deleting all historic states from the freezer database cannot be undone,
//! so the command refuses unless the database demonstrably belongs to the
//! expected network and the operator has explicitly confirmed. The checks and
//! their order are verified here; opening the database, loading the genesis
//! state and the actual deletion are storage I/O and live outside this crate.

use vstd::prelude::*;

verus! {

/// Anchor value marking a freezer database whose historic states are already
/// pruned: no state at or above this limit is retained.
pub const STATE_UPPER_LIMIT_NO_RETAIN: u64 = u64::MAX;

/// Configuration for the historic-state pruning command.
#[derive(Clone, Copy, Debug, PartialEq, Eq, Structural)]
pub struct PruneStatesConfig {
    /// Commit to pruning states irreversibly. Without this the command only
    /// checks that the database is capable of being pruned.
    pub confirm: bool,
}

/// What the pruning command does, decided by the checks in order.
#[derive(Clone, Copy, Debug, PartialEq, Eq, Structural)]
pub enum PruneStatesDecision {
    /// The genesis state is missing from the database: refuse (check the
    /// schema version).
    GenesisMissing,
    /// The database's genesis does not belong to the expected network: refuse
    /// rather than delete states of the wrong chain.
    WrongNetwork,
    /// Not confirmed, and the anchor shows the states already pruned: nothing
    /// to do.
    AlreadyPruned,
    /// Not confirmed: refuse until the operator commits to deletion.
    ConfirmationRequired,
    /// Confirmed and safe: prune the historic states and re-store genesis.
    Prune,
}

/// The decision, as a function of the confirmation flag, the genesis
/// validators root found in the database (if any), the expected network's
/// genesis validators root, and the anchor's state upper limit (if the
/// database has an anchor).
pub open spec fn prune_decision_spec(
    confirm: bool,
    db_genesis_root: Option<u64>,
    expected_genesis_root: u64,
    anchor_state_upper_limit: Option<u64>,
) -> PruneStatesDecision {
    if db_genesis_root is None {
        PruneStatesDecision::GenesisMissing
    } else if db_genesis_root->Some_0 != expected_genesis_root {
        PruneStatesDecision::WrongNetwork
    } else if !confirm {
        if anchor_state_upper_limit == Some(STATE_UPPER_LIMIT_NO_RETAIN) {
            PruneStatesDecision::AlreadyPruned
        } else {
            PruneStatesDecision::ConfirmationRequired
        }
    } else {
        PruneStatesDecision::Prune
    }
}

/// Decide what the pruning command may do. Pruning is reached only with the
/// genesis roots matching and the confirmation flag set.
pub fn prune_states_decision(
    config: &PruneStatesConfig,
    db_genesis_root: Option<u64>,
    expected_genesis_root: u64,
    anchor_state_upper_limit: Option<u64>,
) -> (d: PruneStatesDecision)
    ensures
        d == prune_decision_spec(
            config.confirm,
            db_genesis_root,
            expected_genesis_root,
            anchor_state_upper_limit,
        ),
{
    match db_genesis_root {
        None => PruneStatesDecision::GenesisMissing,
        Some(db_root) => {
            if db_root != expected_genesis_root {
                PruneStatesDecision::WrongNetwork
            } else if !config.confirm {
                let already_pruned: bool = match anchor_state_upper_limit {
                    Some(limit) => limit == STATE_UPPER_LIMIT_NO_RETAIN,
                    None => false,
                };
                if already_pruned {
                    PruneStatesDecision::AlreadyPruned
                } else {
                    PruneStatesDecision::ConfirmationRequired
                }
            } else {
                PruneStatesDecision::Prune
            }
        },
    }
}

} // verus!
