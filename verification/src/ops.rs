//! Operation handlers of the staking core.
//!
//! Each handler settles any reward owed for the time elapsed since the
//! last settlement point, then commits its state mutations, or fails and
//! commits nothing.  The spec functions here pin down, for every handler,
//! both the exact successor state on success and the exact error on
//! failure, in evaluation order.
//!
//! The value-transfer collaborator is outside this core: callers perform
//! the movement of funds and must discard the handler's mutations when it
//! fails, keeping every operation all-or-nothing.

use vstd::prelude::*;

use crate::accrual::{accrued, accrual_overflows, calculate_pending_rewards, elapsed_of};
use crate::errors::SolstakeError;
use crate::state::{Pool, StakeInfo};

verus! {

/// Reward newly accrued by `info` at `rate` through `now`.
pub open spec fn accrual_of(info: StakeInfo, rate: u64, now: i64) -> int {
    accrued(
        info.amount as int,
        rate as int,
        elapsed_of(info.last_claim_time as int, now as int),
    )
}

/// Whether settling `info` at `rate` through `now` overflows `u64`.
pub open spec fn accrual_of_overflows(info: StakeInfo, rate: u64, now: i64) -> bool {
    accrual_overflows(
        info.amount as int,
        rate as int,
        elapsed_of(info.last_claim_time as int, now as int),
    )
}

/// The pool record created by `initialize_pool`.
pub open spec fn new_pool(authority: u64, reward_rate: u64, lock_period: i64, now: i64) -> Pool {
    Pool {
        authority,
        reward_rate,
        lock_period,
        total_staked: 0,
        total_rewards_distributed: 0,
        last_update_time: now,
    }
}

/// Create the pool record in `slot`, which stands for the record store's
/// cell at the pool's derived key.  Fails with `AlreadyInitialized` if a
/// pool already exists there, and with `InvalidAmount` if the requested
/// lock period is negative.
pub fn initialize_pool(
    slot: &mut Option<Pool>,
    authority: u64,
    reward_rate: u64,
    lock_period: i64,
    now: i64,
) -> (r: Result<(), SolstakeError>)
    ensures
        match r {
            Ok(()) => old(slot).is_none() && lock_period >= 0 && *final(slot) == Some(
                new_pool(authority, reward_rate, lock_period, now),
            ),
            Err(e) => *final(slot) == *old(slot) && if old(slot).is_some() {
                e == SolstakeError::AlreadyInitialized
            } else {
                lock_period < 0 && e == SolstakeError::InvalidAmount
            },
        },
{
    if slot.is_some() {
        return Err(SolstakeError::AlreadyInitialized);
    }
    if lock_period < 0 {
        return Err(SolstakeError::InvalidAmount);
    }
    *slot = Some(
        Pool {
            authority,
            reward_rate,
            lock_period,
            total_staked: 0,
            total_rewards_distributed: 0,
            last_update_time: now,
        },
    );
    Ok(())
}

/// The error `stake` returns on the given pre-state, if any, in
/// evaluation order.
pub open spec fn stake_err(pool: Pool, info: StakeInfo, amount: u64, now: i64) -> Option<
    SolstakeError,
> {
    if amount == 0 {
        Some(SolstakeError::InvalidAmount)
    } else if accrual_of_overflows(info, pool.reward_rate, now) {
        Some(SolstakeError::ArithmeticOverflow)
    } else if info.pending_rewards + accrual_of(info, pool.reward_rate, now) > u64::MAX {
        Some(SolstakeError::ArithmeticOverflow)
    } else if info.amount + amount > u64::MAX {
        Some(SolstakeError::ArithmeticOverflow)
    } else if pool.total_staked + amount > u64::MAX {
        Some(SolstakeError::ArithmeticOverflow)
    } else {
        None
    }
}

/// The position record after a successful `stake`: principal grown by
/// `amount`, rewards settled through `now`, and the lock window restarted
/// for the entire position.
pub open spec fn staked_info(info: StakeInfo, rate: u64, amount: u64, now: i64) -> StakeInfo {
    StakeInfo {
        amount: (info.amount + amount) as u64,
        stake_time: now,
        last_claim_time: now,
        pending_rewards: (info.pending_rewards + accrual_of(info, rate, now)) as u64,
        ..info
    }
}

/// The pool record after a successful `stake` of `amount`.
pub open spec fn staked_pool(pool: Pool, amount: u64, now: i64) -> Pool {
    Pool { total_staked: (pool.total_staked + amount) as u64, last_update_time: now, ..pool }
}

/// Stake `amount` into the pool at time `now`.  Settles rewards accrued so
/// far, grows the principal, and restarts the lock window for the entire
/// position.  Fails with `InvalidAmount` on a zero amount and with
/// `ArithmeticOverflow` if any checked operation would exceed `u64::MAX`;
/// on failure both records are left unchanged.
pub fn stake(pool: &mut Pool, info: &mut StakeInfo, amount: u64, now: i64) -> (r: Result<
    (),
    SolstakeError,
>)
    ensures
        match r {
            Ok(()) => stake_err(*old(pool), *old(info), amount, now) is None && *final(info)
                == staked_info(*old(info), old(pool).reward_rate, amount, now) && *final(pool)
                == staked_pool(*old(pool), amount, now),
            Err(e) => stake_err(*old(pool), *old(info), amount, now) == Some(e) && *final(info)
                == *old(info) && *final(pool) == *old(pool),
        },
{
    if amount == 0 {
        return Err(SolstakeError::InvalidAmount);
    }
    let pending = match calculate_pending_rewards(
        info.amount,
        info.last_claim_time,
        now,
        pool.reward_rate,
    ) {
        Ok(p) => p,
        Err(e) => { return Err(e); },
    };
    let new_pending = match info.pending_rewards.checked_add(pending) {
        Some(v) => v,
        None => { return Err(SolstakeError::ArithmeticOverflow); },
    };
    let new_amount = match info.amount.checked_add(amount) {
        Some(v) => v,
        None => { return Err(SolstakeError::ArithmeticOverflow); },
    };
    let new_total = match pool.total_staked.checked_add(amount) {
        Some(v) => v,
        None => { return Err(SolstakeError::ArithmeticOverflow); },
    };
    info.amount = new_amount;
    info.stake_time = now;
    info.last_claim_time = now;
    info.pending_rewards = new_pending;
    pool.total_staked = new_total;
    pool.last_update_time = now;
    Ok(())
}

/// The error `unstake` returns on the given pre-state, if any, in
/// evaluation order.
pub open spec fn unstake_err(pool: Pool, info: StakeInfo, amount: u64, now: i64) -> Option<
    SolstakeError,
> {
    if amount == 0 {
        Some(SolstakeError::InvalidAmount)
    } else if info.amount < amount {
        Some(SolstakeError::InsufficientStake)
    } else if now - info.stake_time < pool.lock_period {
        Some(SolstakeError::StakeLocked)
    } else if accrual_of_overflows(info, pool.reward_rate, now) {
        Some(SolstakeError::ArithmeticOverflow)
    } else if info.pending_rewards + accrual_of(info, pool.reward_rate, now) > u64::MAX {
        Some(SolstakeError::ArithmeticOverflow)
    } else if pool.total_staked < amount {
        Some(SolstakeError::ArithmeticUnderflow)
    } else {
        None
    }
}

/// The position record after a successful `unstake` of `amount`: principal
/// shrunk, rewards settled through `now`, lock window untouched.
pub open spec fn unstaked_info(info: StakeInfo, rate: u64, amount: u64, now: i64) -> StakeInfo {
    StakeInfo {
        amount: (info.amount - amount) as u64,
        last_claim_time: now,
        pending_rewards: (info.pending_rewards + accrual_of(info, rate, now)) as u64,
        ..info
    }
}

/// The pool record after a successful `unstake` of `amount`.
pub open spec fn unstaked_pool(pool: Pool, amount: u64, now: i64) -> Pool {
    Pool { total_staked: (pool.total_staked - amount) as u64, last_update_time: now, ..pool }
}

/// Withdraw `amount` of principal at time `now`.  The lock check is
/// all-or-nothing: nothing may be withdrawn before the lock window of the
/// entire position elapses.  Rewards are settled into `pending_rewards`,
/// not paid out.  On failure both records are left unchanged.
pub fn unstake(pool: &mut Pool, info: &mut StakeInfo, amount: u64, now: i64) -> (r: Result<
    (),
    SolstakeError,
>)
    ensures
        match r {
            Ok(()) => unstake_err(*old(pool), *old(info), amount, now) is None && *final(info)
                == unstaked_info(*old(info), old(pool).reward_rate, amount, now) && *final(pool)
                == unstaked_pool(*old(pool), amount, now),
            Err(e) => unstake_err(*old(pool), *old(info), amount, now) == Some(e) && *final(info)
                == *old(info) && *final(pool) == *old(pool),
        },
{
    if amount == 0 {
        return Err(SolstakeError::InvalidAmount);
    }
    if info.amount < amount {
        return Err(SolstakeError::InsufficientStake);
    }
    let time_staked: i128 = (now as i128) - (info.stake_time as i128);
    if time_staked < (pool.lock_period as i128) {
        return Err(SolstakeError::StakeLocked);
    }
    let pending = match calculate_pending_rewards(
        info.amount,
        info.last_claim_time,
        now,
        pool.reward_rate,
    ) {
        Ok(p) => p,
        Err(e) => { return Err(e); },
    };
    let new_pending = match info.pending_rewards.checked_add(pending) {
        Some(v) => v,
        None => { return Err(SolstakeError::ArithmeticOverflow); },
    };
    let new_total = match pool.total_staked.checked_sub(amount) {
        Some(v) => v,
        None => { return Err(SolstakeError::ArithmeticUnderflow); },
    };
    info.amount = info.amount - amount;
    info.last_claim_time = now;
    info.pending_rewards = new_pending;
    pool.total_staked = new_total;
    pool.last_update_time = now;
    Ok(())
}

/// Everything a claim at `now` would pay out: rewards already settled plus
/// rewards newly accrued through `now`.
pub open spec fn claim_total(pool: Pool, info: StakeInfo, now: i64) -> int {
    info.pending_rewards + accrual_of(info, pool.reward_rate, now)
}

/// The error `claim_rewards` returns on the given pre-state, if any, in
/// evaluation order.
pub open spec fn claim_err(pool: Pool, info: StakeInfo, now: i64) -> Option<SolstakeError> {
    if accrual_of_overflows(info, pool.reward_rate, now) {
        Some(SolstakeError::ArithmeticOverflow)
    } else if claim_total(pool, info, now) > u64::MAX {
        Some(SolstakeError::ArithmeticOverflow)
    } else if claim_total(pool, info, now) == 0 {
        Some(SolstakeError::NoRewards)
    } else if pool.total_rewards_distributed + claim_total(pool, info, now) > u64::MAX {
        Some(SolstakeError::ArithmeticOverflow)
    } else {
        None
    }
}

/// The position record after a successful claim at `now`.
pub open spec fn claimed_info(info: StakeInfo, now: i64) -> StakeInfo {
    StakeInfo { last_claim_time: now, pending_rewards: 0, ..info }
}

/// The pool record after a successful claim paying out `total`.
pub open spec fn claimed_pool(pool: Pool, total: int) -> Pool {
    Pool {
        total_rewards_distributed: (pool.total_rewards_distributed + total) as u64,
        ..pool
    }
}

/// Pay out all rewards owed through `now` and return the paid amount.
/// Fails with `NoRewards` if nothing is owed, and with
/// `ArithmeticOverflow` if a checked operation would exceed `u64::MAX`;
/// on failure both records are left unchanged.
pub fn claim_rewards(pool: &mut Pool, info: &mut StakeInfo, now: i64) -> (r: Result<
    u64,
    SolstakeError,
>)
    ensures
        match r {
            Ok(paid) => claim_err(*old(pool), *old(info), now) is None && paid == claim_total(
                *old(pool),
                *old(info),
                now,
            ) && *final(info) == claimed_info(*old(info), now) && *final(pool) == claimed_pool(
                *old(pool),
                paid as int,
            ),
            Err(e) => claim_err(*old(pool), *old(info), now) == Some(e) && *final(info) == *old(
                info,
            ) && *final(pool) == *old(pool),
        },
{
    let pending = match calculate_pending_rewards(
        info.amount,
        info.last_claim_time,
        now,
        pool.reward_rate,
    ) {
        Ok(p) => p,
        Err(e) => { return Err(e); },
    };
    let total = match info.pending_rewards.checked_add(pending) {
        Some(v) => v,
        None => { return Err(SolstakeError::ArithmeticOverflow); },
    };
    if total == 0 {
        return Err(SolstakeError::NoRewards);
    }
    let new_distributed = match pool.total_rewards_distributed.checked_add(total) {
        Some(v) => v,
        None => { return Err(SolstakeError::ArithmeticOverflow); },
    };
    info.pending_rewards = 0;
    info.last_claim_time = now;
    pool.total_rewards_distributed = new_distributed;
    Ok(total)
}

/// The error `emergency_withdraw` returns on the given pre-state, if any.
pub open spec fn emergency_err(pool: Pool, info: StakeInfo) -> Option<SolstakeError> {
    if info.amount == 0 {
        Some(SolstakeError::InvalidAmount)
    } else if pool.total_staked < info.amount {
        Some(SolstakeError::ArithmeticUnderflow)
    } else {
        None
    }
}

/// The position record after an emergency withdrawal: principal returned,
/// unclaimed rewards forfeited.
pub open spec fn emergency_info(info: StakeInfo) -> StakeInfo {
    StakeInfo { amount: 0, pending_rewards: 0, ..info }
}

/// The pool record after an emergency withdrawal from `info`.
pub open spec fn emergency_pool(pool: Pool, info: StakeInfo) -> Pool {
    Pool { total_staked: (pool.total_staked - info.amount) as u64, ..pool }
}

/// Return the entire principal immediately, bypassing the lock period and
/// forfeiting all rewards, settled or not, and return the principal paid
/// back.  Fails with `InvalidAmount` on an empty position; on failure both
/// records are left unchanged.
pub fn emergency_withdraw(pool: &mut Pool, info: &mut StakeInfo) -> (r: Result<
    u64,
    SolstakeError,
>)
    ensures
        match r {
            Ok(returned) => emergency_err(*old(pool), *old(info)) is None && returned == old(
                info,
            ).amount && *final(info) == emergency_info(*old(info)) && *final(pool)
                == emergency_pool(*old(pool), *old(info)),
            Err(e) => emergency_err(*old(pool), *old(info)) == Some(e) && *final(info) == *old(
                info,
            ) && *final(pool) == *old(pool),
        },
{
    let amount = info.amount;
    if amount == 0 {
        return Err(SolstakeError::InvalidAmount);
    }
    let new_total = match pool.total_staked.checked_sub(amount) {
        Some(v) => v,
        None => { return Err(SolstakeError::ArithmeticUnderflow); },
    };
    pool.total_staked = new_total;
    info.amount = 0;
    info.pending_rewards = 0;
    Ok(amount)
}

} // verus!
