//! Settlement core of a staking protocol, together with the in-memory
//! registry behind its companion analytics service.
//!
//! The staking side tracks funds deposited into a shared pool by many
//! independent participants, accrues rewards to each participant in
//! proportion to the amount staked and the time elapsed, and enforces a
//! minimum lock period before principal may be withdrawn.  Every operation
//! is all-or-nothing: a failed operation leaves the records it touched
//! exactly as they were, and the pool's aggregate total always equals the
//! sum of its positions' staked amounts.
//!
//! Movement of funds, clock reads and persistence belong to the caller;
//! the operations here take plain timestamps and record values and state
//! exactly how they evolve.

pub mod accrual;
pub mod errors;
pub mod laws;
pub mod ledger;
pub mod ops;
pub mod registry;
pub mod state;
