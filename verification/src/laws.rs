//! Properties that relate several operations of the staking core.
//!
//! Each law is stated over the spec functions that the operation handlers'
//! own contracts use, so it composes directly with those contracts.

use vstd::prelude::*;

use crate::errors::SolstakeError;
use crate::ledger::{sum_amounts, StakeLedger};
use crate::ops::{
    claim_err, claim_total, claimed_info, claimed_pool, emergency_err, emergency_info,
    emergency_pool, unstake_err,
};
use crate::state::{Pool, StakeInfo};

verus! {

/// Law: the pool's `total_staked` always equals the sum of the staked
/// amounts of all its positions.
pub proof fn lemma_total_staked_matches_positions(ledger: StakeLedger)
    requires
        ledger.wf(),
    ensures
        ledger.pool().total_staked as int == sum_amounts(ledger.positions()),
{
}

/// Law: a position's staked amount and pending rewards are non-negative
/// after every operation.
pub proof fn lemma_position_counters_nonnegative(info: StakeInfo)
    ensures
        info.amount >= 0,
        info.pending_rewards >= 0,
{
}

/// Law: a second claim made at the same timestamp as a successful claim
/// finds nothing owed and fails with `NoRewards`: the first claim zeroed
/// the settled rewards and advanced the settlement point to `now`, so
/// nothing new accrues in zero elapsed time.
pub proof fn lemma_second_claim_fails(pool: Pool, info: StakeInfo, now: i64)
    requires
        claim_err(pool, info, now) is None,
    ensures
        ({
            let paid = claim_total(pool, info, now);
            claim_err(claimed_pool(pool, paid), claimed_info(info, now), now) == Some(
                SolstakeError::NoRewards,
            )
        }),
{
    let settled = claimed_info(info, now);
    assert(settled.amount * pool.reward_rate * 0 == 0);
}

/// Law: after an emergency withdrawal both the principal and the pending
/// rewards are zero, so a claim at any later time fails with `NoRewards`:
/// the forfeited rewards are gone for good.
pub proof fn lemma_claim_after_emergency_fails(pool: Pool, info: StakeInfo, now: i64)
    ensures
        claim_err(emergency_pool(pool, info), emergency_info(info), now) == Some(
            SolstakeError::NoRewards,
        ),
{
    let gone = emergency_info(info);
    let rate = pool.reward_rate as int;
    let e = crate::accrual::elapsed_of(gone.last_claim_time as int, now as int);
    assert(gone.amount as int * rate == 0 && gone.amount as int * rate * e == 0)
        by (nonlinear_arith)
        requires
            gone.amount == 0,
    ;
}

/// Law: the lock period is enforced all-or-nothing.  An otherwise valid
/// withdrawal attempted strictly before the lock window of the position
/// elapses fails with `StakeLocked`; from the moment the window elapses,
/// the lock no longer stands in the way.
pub proof fn lemma_lock_enforced(pool: Pool, info: StakeInfo, amount: u64, now: i64)
    requires
        0 < amount <= info.amount,
    ensures
        now - info.stake_time < pool.lock_period ==> unstake_err(pool, info, amount, now) == Some(
            SolstakeError::StakeLocked,
        ),
        now - info.stake_time >= pool.lock_period ==> unstake_err(pool, info, amount, now) != Some(
            SolstakeError::StakeLocked,
        ),
{
}

/// Law: the pool's paid-out reward counter never decreases; a successful
/// claim grows it by exactly the amount paid.
pub proof fn lemma_rewards_distributed_monotonic(pool: Pool, info: StakeInfo, now: i64)
    requires
        claim_err(pool, info, now) is None,
    ensures
        ({
            let paid = claim_total(pool, info, now);
            &&& claimed_pool(pool, paid).total_rewards_distributed == pool.total_rewards_distributed
                + paid
            &&& claimed_pool(pool, paid).total_rewards_distributed
                >= pool.total_rewards_distributed
        }),
{
}

/// Law: an emergency withdrawal returns the principal only; the paid-out
/// reward counter of the pool does not move.
pub proof fn lemma_emergency_pays_principal_only(pool: Pool, info: StakeInfo)
    requires
        emergency_err(pool, info) is None,
    ensures
        emergency_pool(pool, info).total_rewards_distributed == pool.total_rewards_distributed,
        emergency_info(info).pending_rewards == 0,
        emergency_info(info).amount == 0,
{
}

} // verus!
