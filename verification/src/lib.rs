//! Speculative state-advance scheduling for a consensus client.
//!
//! Near the end of each slot the scheduler wakes, and — if no other advance is
//! still running — dispatches a worker that advances the head state exactly one
//! slot, primes the duty caches, and persists the result. The worker's
//! behaviour is verified here over an explicit model of the chain
//! collaborators (slot clock, fork choice, state store, duty caches).
//!
//! A small database-management surface (raw column inspection and
//! historic-state pruning decisions) is verified alongside it; the binary
//! around this library does the actual storage I/O.

pub mod advance;
pub mod errors;
pub mod inspect;
pub mod lock;
pub mod prune;
pub mod timer;

pub use lock::Lock;
