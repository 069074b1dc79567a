//! An escrowed-bounty ledger.
//!
//! A company locks a prize for a task; a hunter who completes the task is
//! paid the prize minus a platform fee; escrow left unclaimed after a fixed
//! expiry window reverts to the platform treasury.
//!
//! The crate models the ledger over plain values: identities are opaque
//! numbers handed in by the environment, balances are value units held in
//! `u64` fields, and the clock is a caller-supplied timestamp. The four
//! state transitions in [`engine`] carry contracts that pin down exactly
//! which inputs succeed, which error each rejected input earns, and how
//! every balance and accumulator moves; [`laws`] states and proves the
//! global rules (value conservation, no double spend, mutual exclusion of
//! the terminal states, the time gate).

pub mod engine;
pub mod errors;
pub mod laws;
pub mod state;
