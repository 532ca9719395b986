//! Error taxonomy of the staking core.
//!
//! Every operation returns one of these variants on failure, and commits
//! nothing: a failed operation leaves the pool and position records it
//! touched equal to their pre-call values.

use vstd::prelude::*;

verus! {

/// The reasons a staking operation can fail.
#[derive(Debug, Clone, Copy, PartialEq, Eq, Structural)]
pub enum SolstakeError {
    /// A zero or otherwise disallowed amount was supplied.
    InvalidAmount,
    /// An unstake asked for more than the position currently holds.
    InsufficientStake,
    /// A withdrawal was attempted before the pool's lock period elapsed.
    StakeLocked,
    /// A claim found nothing owed.
    NoRewards,
    /// A checked addition or multiplication would have exceeded `u64::MAX`.
    ArithmeticOverflow,
    /// A checked subtraction would have gone below zero.
    ArithmeticUnderflow,
    /// The value-transfer collaborator refused or failed the movement.
    TransferFailed,
    /// A pool already exists at the derived key.
    AlreadyInitialized,
    /// The named pool or position does not exist.
    NotFound,
}

impl SolstakeError {
    /// A short human-readable description of the error.
    pub fn describe(&self) -> (r: &'static str)
        ensures
            r@.len() > 0,
    {
        proof {
            reveal_strlit("amount must be greater than zero");
            reveal_strlit("insufficient staked amount");
            reveal_strlit("stake is still locked");
            reveal_strlit("no rewards to claim");
            reveal_strlit("arithmetic overflow");
            reveal_strlit("arithmetic underflow");
            reveal_strlit("value transfer failed");
            reveal_strlit("pool already initialized");
            reveal_strlit("unknown pool or position");
        }
        match self {
            SolstakeError::InvalidAmount => "amount must be greater than zero",
            SolstakeError::InsufficientStake => "insufficient staked amount",
            SolstakeError::StakeLocked => "stake is still locked",
            SolstakeError::NoRewards => "no rewards to claim",
            SolstakeError::ArithmeticOverflow => "arithmetic overflow",
            SolstakeError::ArithmeticUnderflow => "arithmetic underflow",
            SolstakeError::TransferFailed => "value transfer failed",
            SolstakeError::AlreadyInitialized => "pool already initialized",
            SolstakeError::NotFound => "unknown pool or position",
        }
    }
}

} // verus!
