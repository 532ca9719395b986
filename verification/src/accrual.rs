//! Time-weighted reward accrual.
//!
//! Rewards owed for a settlement window are
//! `floor(amount * rate * elapsed / SCALE)`, where `elapsed` is the time
//! since the last settlement point, clamped to zero if the clock ever ran
//! backwards.  `SCALE` is a fixed-point normalization constant that lets
//! the rate express sub-unit reward ratios in integer arithmetic.  Every
//! multiplication is checked against `u64` overflow; on overflow the
//! enclosing operation fails instead of wrapping.

use vstd::prelude::*;

use crate::errors::SolstakeError;

verus! {

/// Fixed-point normalization constant for the reward rate.
pub const SCALE: u64 = 1_000_000_000;

/// Time elapsed between two settlement points, clamped to zero if the
/// clock ran backwards.
pub open spec fn elapsed_of(last_claim_time: int, current_time: int) -> int {
    if current_time >= last_claim_time {
        current_time - last_claim_time
    } else {
        0
    }
}

/// Rewards owed for `amount` staked over `elapsed` time units at `rate`,
/// truncated toward zero by the fixed-point normalization.
pub open spec fn accrued(amount: int, rate: int, elapsed: int) -> int {
    (amount * rate * elapsed) / (SCALE as int)
}

/// Whether computing the accrual in `u64` arithmetic overflows: either the
/// first product `amount * rate` or the full product exceeds `u64::MAX`.
pub open spec fn accrual_overflows(amount: int, rate: int, elapsed: int) -> bool {
    amount * rate > u64::MAX || amount * rate * elapsed > u64::MAX
}

/// Rewards owed for `staked_amount` held from `last_claim_time` through
/// `current_time` at `reward_rate`, or `ArithmeticOverflow` if a checked
/// multiplication would exceed `u64::MAX`.
pub fn calculate_pending_rewards(
    staked_amount: u64,
    last_claim_time: i64,
    current_time: i64,
    reward_rate: u64,
) -> (r: Result<u64, SolstakeError>)
    ensures
        ({
            let e = elapsed_of(last_claim_time as int, current_time as int);
            match r {
                Ok(v) => !accrual_overflows(staked_amount as int, reward_rate as int, e)
                    && v == accrued(staked_amount as int, reward_rate as int, e),
                Err(err) => accrual_overflows(staked_amount as int, reward_rate as int, e)
                    && err == SolstakeError::ArithmeticOverflow,
            }
        }),
{
    let time_elapsed: u64 = if current_time >= last_claim_time {
        ((current_time as i128) - (last_claim_time as i128)) as u64
    } else {
        0
    };
    match staked_amount.checked_mul(reward_rate) {
        Some(product) => match product.checked_mul(time_elapsed) {
            Some(scaled) => Ok(scaled / SCALE),
            None => Err(SolstakeError::ArithmeticOverflow),
        },
        None => Err(SolstakeError::ArithmeticOverflow),
    }
}

} // verus!
