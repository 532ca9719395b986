use solstake::accrual::{calculate_pending_rewards, SCALE};
use solstake::errors::SolstakeError;
use solstake::ledger::StakeLedger;
use solstake::ops;
use solstake::state::{Pool, StakeInfo};

const POOL_ID: u64 = 1;
const AUTHORITY: u64 = 7;

// A rate at which one reward unit accrues per 10 time units on 100 staked:
// 100 * 1_000_000 * 10 / SCALE == 1.
const RATE_1_PER_10S_ON_100: u64 = 1_000_000;

#[test]
fn accrual_exact_formula() {
    // amount=1000, rate=R, elapsed=T gives floor(1000*R*T/SCALE).
    let r: u64 = 2_000_000_000;
    let t: i64 = 10;
    let expected = 1000u64 * r / SCALE * t as u64;
    assert_eq!(calculate_pending_rewards(1000, 0, t, r), Ok(expected));
    assert_eq!(calculate_pending_rewards(1000, 0, 10, 2_000_000_000), Ok(20_000));
    // Truncation: 1000 * 3 * 7 / 1e9 == 0.
    assert_eq!(calculate_pending_rewards(1000, 0, 7, 3), Ok(0));
}

#[test]
fn accrual_zero_elapsed_is_zero() {
    assert_eq!(calculate_pending_rewards(1000, 55, 55, 123_456_789), Ok(0));
}

#[test]
fn accrual_negative_elapsed_clamps_to_zero() {
    assert_eq!(calculate_pending_rewards(1000, 100, 40, 123_456_789), Ok(0));
}

#[test]
fn accrual_overflow_fails_rather_than_wraps() {
    assert_eq!(
        calculate_pending_rewards(u64::MAX, 0, 1, 2),
        Err(SolstakeError::ArithmeticOverflow)
    );
    // First product fits, second overflows.
    assert_eq!(
        calculate_pending_rewards(u64::MAX / 2, 0, 3, 2),
        Err(SolstakeError::ArithmeticOverflow)
    );
}

#[test]
fn initialize_pool_rejects_negative_lock_period() {
    let r = StakeLedger::initialize_pool(POOL_ID, AUTHORITY, 5, -1, 0);
    assert_eq!(r.err(), Some(SolstakeError::InvalidAmount));
}

#[test]
fn initialize_pool_zeroes_totals() {
    let ledger = StakeLedger::initialize_pool(POOL_ID, AUTHORITY, 5, 3600, 11).unwrap();
    let pool = ledger.pool_record();
    assert_eq!(pool.authority, AUTHORITY);
    assert_eq!(pool.reward_rate, 5);
    assert_eq!(pool.lock_period, 3600);
    assert_eq!(pool.total_staked, 0);
    assert_eq!(pool.total_rewards_distributed, 0);
    assert_eq!(pool.last_update_time, 11);
    assert_eq!(ledger.positions_len(), 0);
}

#[test]
fn initialize_pool_slot_refuses_second_pool() {
    let mut slot: Option<Pool> = None;
    assert_eq!(ops::initialize_pool(&mut slot, AUTHORITY, 5, 60, 0), Ok(()));
    assert!(slot.is_some());
    assert_eq!(
        ops::initialize_pool(&mut slot, AUTHORITY, 5, 60, 1),
        Err(SolstakeError::AlreadyInitialized)
    );
}

#[test]
fn stake_rejects_zero_amount() {
    let mut ledger = StakeLedger::initialize_pool(POOL_ID, AUTHORITY, 0, 0, 0).unwrap();
    assert_eq!(ledger.stake(42, 0, 0), Err(SolstakeError::InvalidAmount));
    assert_eq!(ledger.positions_len(), 0);
}

#[test]
fn stake_creates_position_and_updates_totals() {
    let mut ledger = StakeLedger::initialize_pool(POOL_ID, AUTHORITY, 0, 3600, 0).unwrap();
    assert_eq!(ledger.stake(42, 100, 5), Ok(()));
    let info = ledger.position_of(42).unwrap();
    assert_eq!(info.user, 42);
    assert_eq!(info.pool, POOL_ID);
    assert_eq!(info.amount, 100);
    assert_eq!(info.stake_time, 5);
    assert_eq!(info.last_claim_time, 5);
    assert_eq!(info.pending_rewards, 0);
    assert_eq!(ledger.pool_record().total_staked, 100);
    assert_eq!(ledger.pool_record().last_update_time, 5);
}

#[test]
fn total_staked_matches_sum_of_positions() {
    let mut ledger = StakeLedger::initialize_pool(POOL_ID, AUTHORITY, 0, 0, 0).unwrap();
    assert_eq!(ledger.stake(1, 100, 0), Ok(()));
    assert_eq!(ledger.stake(2, 250, 1), Ok(()));
    assert_eq!(ledger.stake(3, 7, 2), Ok(()));
    assert_eq!(ledger.unstake(2, 50, 3), Ok(()));
    let sum = ledger.position_of(1).unwrap().amount + ledger.position_of(2).unwrap().amount
        + ledger.position_of(3).unwrap().amount;
    assert_eq!(ledger.pool_record().total_staked, sum);
    assert_eq!(sum, 307);
}

#[test]
fn stake_overflow_leaves_records_unchanged() {
    let mut ledger = StakeLedger::initialize_pool(POOL_ID, AUTHORITY, 0, 0, 0).unwrap();
    assert_eq!(ledger.stake(42, u64::MAX, 0), Ok(()));
    let pool_before = ledger.pool_record();
    let info_before = ledger.position_of(42).unwrap();
    assert_eq!(ledger.stake(42, 1, 1), Err(SolstakeError::ArithmeticOverflow));
    assert_eq!(ledger.pool_record(), pool_before);
    assert_eq!(ledger.position_of(42).unwrap(), info_before);
}

#[test]
fn unstake_before_lock_period_fails_at_boundary() {
    let mut ledger = StakeLedger::initialize_pool(POOL_ID, AUTHORITY, 0, 3600, 0).unwrap();
    assert_eq!(ledger.stake(42, 100, 0), Ok(()));
    let pool_before = ledger.pool_record();
    let info_before = ledger.position_of(42).unwrap();
    assert_eq!(ledger.unstake(42, 50, 3599), Err(SolstakeError::StakeLocked));
    // The failed attempt changed nothing.
    assert_eq!(ledger.pool_record(), pool_before);
    assert_eq!(ledger.position_of(42).unwrap(), info_before);
    // At exactly the lock boundary the withdrawal succeeds.
    assert_eq!(ledger.unstake(42, 50, 3600), Ok(()));
    assert_eq!(ledger.position_of(42).unwrap().amount, 50);
    assert_eq!(ledger.pool_record().total_staked, 50);
}

#[test]
fn unstake_rejects_more_than_staked() {
    let mut ledger = StakeLedger::initialize_pool(POOL_ID, AUTHORITY, 0, 0, 0).unwrap();
    assert_eq!(ledger.stake(42, 100, 0), Ok(()));
    assert_eq!(ledger.unstake(42, 101, 0), Err(SolstakeError::InsufficientStake));
    assert_eq!(ledger.unstake(42, 0, 0), Err(SolstakeError::InvalidAmount));
}

#[test]
fn unstake_unknown_user_not_found() {
    let mut ledger = StakeLedger::initialize_pool(POOL_ID, AUTHORITY, 0, 0, 0).unwrap();
    assert_eq!(ledger.unstake(42, 1, 0), Err(SolstakeError::NotFound));
    assert_eq!(ledger.claim_rewards(42, 0), Err(SolstakeError::NotFound));
    assert_eq!(ledger.emergency_withdraw(42), Err(SolstakeError::NotFound));
}

#[test]
fn unstake_settles_rewards_without_paying_them() {
    let mut ledger =
        StakeLedger::initialize_pool(POOL_ID, AUTHORITY, RATE_1_PER_10S_ON_100, 0, 0).unwrap();
    assert_eq!(ledger.stake(42, 100, 0), Ok(()));
    assert_eq!(ledger.unstake(42, 40, 100), Ok(()));
    let info = ledger.position_of(42).unwrap();
    // 10 units accrued on 100 staked over 100 time units, settled not paid.
    assert_eq!(info.pending_rewards, 10);
    assert_eq!(info.amount, 60);
    assert_eq!(info.last_claim_time, 100);
    // The lock window did not restart.
    assert_eq!(info.stake_time, 0);
    assert_eq!(ledger.pool_record().total_rewards_distributed, 0);
}

#[test]
fn restake_settles_rewards_and_restarts_lock() {
    let mut ledger =
        StakeLedger::initialize_pool(POOL_ID, AUTHORITY, RATE_1_PER_10S_ON_100, 3600, 0).unwrap();
    assert_eq!(ledger.stake(42, 100, 0), Ok(()));
    assert_eq!(ledger.stake(42, 50, 50), Ok(()));
    let info = ledger.position_of(42).unwrap();
    // Exactly 5 units accrued on the original 100 over 50 time units.
    assert_eq!(info.pending_rewards, 5);
    assert_eq!(info.amount, 150);
    // The lock window restarted for the entire position.
    assert_eq!(info.stake_time, 50);
    assert_eq!(info.last_claim_time, 50);
    assert_eq!(ledger.pool_record().total_staked, 150);
}

#[test]
fn claim_pays_settled_and_new_rewards_once() {
    let mut ledger =
        StakeLedger::initialize_pool(POOL_ID, AUTHORITY, RATE_1_PER_10S_ON_100, 0, 0).unwrap();
    assert_eq!(ledger.stake(42, 100, 0), Ok(()));
    assert_eq!(ledger.claim_rewards(42, 100), Ok(10));
    let info = ledger.position_of(42).unwrap();
    assert_eq!(info.pending_rewards, 0);
    assert_eq!(info.last_claim_time, 100);
    assert_eq!(ledger.pool_record().total_rewards_distributed, 10);
    // Principal is untouched by a claim.
    assert_eq!(info.amount, 100);
    assert_eq!(ledger.pool_record().total_staked, 100);
}

#[test]
fn second_claim_at_same_time_finds_no_rewards() {
    let mut ledger =
        StakeLedger::initialize_pool(POOL_ID, AUTHORITY, RATE_1_PER_10S_ON_100, 0, 0).unwrap();
    assert_eq!(ledger.stake(42, 100, 0), Ok(()));
    assert_eq!(ledger.claim_rewards(42, 100), Ok(10));
    assert_eq!(ledger.claim_rewards(42, 100), Err(SolstakeError::NoRewards));
}

#[test]
fn claim_with_nothing_owed_fails() {
    let mut ledger = StakeLedger::initialize_pool(POOL_ID, AUTHORITY, 0, 0, 0).unwrap();
    assert_eq!(ledger.stake(42, 100, 0), Ok(()));
    // Rate is zero, so nothing ever accrues.
    assert_eq!(ledger.claim_rewards(42, 1000), Err(SolstakeError::NoRewards));
}

#[test]
fn emergency_withdraw_returns_principal_and_forfeits_rewards() {
    let mut ledger =
        StakeLedger::initialize_pool(POOL_ID, AUTHORITY, RATE_1_PER_10S_ON_100, 3600, 0).unwrap();
    assert_eq!(ledger.stake(42, 100, 0), Ok(()));
    // A top-up settles 5 units into pending_rewards.
    assert_eq!(ledger.stake(42, 1, 50), Ok(()));
    assert!(ledger.position_of(42).unwrap().pending_rewards > 0);
    // The lock period does not hinder the emergency exit.
    assert_eq!(ledger.emergency_withdraw(42), Ok(101));
    let info = ledger.position_of(42).unwrap();
    assert_eq!(info.amount, 0);
    assert_eq!(info.pending_rewards, 0);
    assert_eq!(ledger.pool_record().total_staked, 0);
    assert_eq!(ledger.pool_record().total_rewards_distributed, 0);
    // The forfeited rewards are gone for good.
    assert_eq!(ledger.claim_rewards(42, 1000), Err(SolstakeError::NoRewards));
}

#[test]
fn emergency_withdraw_on_empty_position_fails() {
    let mut ledger = StakeLedger::initialize_pool(POOL_ID, AUTHORITY, 0, 0, 0).unwrap();
    assert_eq!(ledger.stake(42, 5, 0), Ok(()));
    assert_eq!(ledger.emergency_withdraw(42), Ok(5));
    assert_eq!(ledger.emergency_withdraw(42), Err(SolstakeError::InvalidAmount));
}

#[test]
fn record_level_stake_mirrors_ledger() {
    let mut pool = Pool {
        authority: AUTHORITY,
        reward_rate: RATE_1_PER_10S_ON_100,
        lock_period: 0,
        total_staked: 0,
        total_rewards_distributed: 0,
        last_update_time: 0,
    };
    let mut info = StakeInfo {
        user: 42,
        pool: POOL_ID,
        amount: 0,
        stake_time: 0,
        last_claim_time: 0,
        pending_rewards: 0,
    };
    assert_eq!(ops::stake(&mut pool, &mut info, 100, 0), Ok(()));
    assert_eq!(ops::claim_rewards(&mut pool, &mut info, 20), Ok(2));
    assert_eq!(ops::unstake(&mut pool, &mut info, 100, 20), Ok(()));
    assert_eq!(info.amount, 0);
    assert_eq!(pool.total_staked, 0);
    assert_eq!(pool.total_rewards_distributed, 2);
    assert_eq!(ops::emergency_withdraw(&mut pool, &mut info), Err(SolstakeError::InvalidAmount));
}

#[test]
fn inconsistent_records_underflow_is_reported() {
    // At the record level the pool aggregate can disagree with a position;
    // the checked subtraction reports it instead of wrapping.
    let mut pool = Pool {
        authority: AUTHORITY,
        reward_rate: 0,
        lock_period: 0,
        total_staked: 3,
        total_rewards_distributed: 0,
        last_update_time: 0,
    };
    let mut info = StakeInfo {
        user: 42,
        pool: POOL_ID,
        amount: 5,
        stake_time: 0,
        last_claim_time: 0,
        pending_rewards: 0,
    };
    assert_eq!(
        ops::emergency_withdraw(&mut pool, &mut info),
        Err(SolstakeError::ArithmeticUnderflow)
    );
    assert_eq!(
        ops::unstake(&mut pool, &mut info, 4, 10),
        Err(SolstakeError::ArithmeticUnderflow)
    );
    // The failed operations changed nothing.
    assert_eq!(pool.total_staked, 3);
    assert_eq!(info.amount, 5);
}

#[test]
fn error_descriptions_are_nonempty() {
    let errors = [
        SolstakeError::InvalidAmount,
        SolstakeError::InsufficientStake,
        SolstakeError::StakeLocked,
        SolstakeError::NoRewards,
        SolstakeError::ArithmeticOverflow,
        SolstakeError::ArithmeticUnderflow,
        SolstakeError::TransferFailed,
        SolstakeError::AlreadyInitialized,
        SolstakeError::NotFound,
    ];
    for e in errors {
        assert!(!e.describe().is_empty());
    }
}
