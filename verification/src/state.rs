//! Pool and position records.
//!
//! A `Pool` holds one staking program instance's configuration and running
//! totals; a `StakeInfo` is one participant's stake record within it.
//! Participants and pools are identified by plain integer keys; deriving
//! those keys from configuration is the record store's concern.

use vstd::prelude::*;

verus! {

/// Aggregate configuration and running totals of one staking pool.
#[derive(Debug, Clone, Copy, PartialEq, Eq, Structural)]
pub struct Pool {
    /// Identity permitted to administer the pool.
    pub authority: u64,
    /// Rewards issued per unit time per unit staked, in `SCALE` fixed point.
    pub reward_rate: u64,
    /// Minimum time a position's principal must remain staked.
    pub lock_period: i64,
    /// Sum of all live positions' staked amounts for this pool.
    pub total_staked: u64,
    /// Monotonically non-decreasing counter of rewards paid out via claims.
    pub total_rewards_distributed: u64,
    /// Timestamp of the most recent stake or unstake touching this pool.
    pub last_update_time: i64,
}

/// One participant's stake record within a pool, created lazily on the
/// participant's first stake and retained even at zero amount thereafter.
#[derive(Debug, Clone, Copy, PartialEq, Eq, Structural)]
pub struct StakeInfo {
    /// The participant this record belongs to.
    pub user: u64,
    /// The pool this record belongs to.
    pub pool: u64,
    /// Current staked principal.
    pub amount: u64,
    /// Timestamp of the most recent deposit; every deposit restarts the
    /// lock window for the entire position.
    pub stake_time: i64,
    /// Timestamp through which rewards have been settled into
    /// `pending_rewards`.
    pub last_claim_time: i64,
    /// Rewards owed but not yet paid out.
    pub pending_rewards: u64,
}

impl Pool {
    /// A well-formed pool has a non-negative lock period.
    pub open spec fn wf(self) -> bool {
        self.lock_period >= 0
    }
}

/// A fresh, empty position for `user` in pool `pool`, created at `now`.
pub open spec fn fresh_info(user: u64, pool: u64, now: i64) -> StakeInfo {
    StakeInfo {
        user,
        pool,
        amount: 0,
        stake_time: now,
        last_claim_time: now,
        pending_rewards: 0,
    }
}

} // verus!
