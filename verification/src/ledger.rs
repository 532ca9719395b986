//! A pool together with all of its positions.
//!
//! `StakeLedger` models the record store's view of one staking pool: the
//! pool record plus every position created under it.  Its well-formedness
//! invariant is the protocol's central accounting law: the pool's
//! `total_staked` equals the sum of all its positions' staked amounts, at
//! all times, and each participant holds at most one position.

use vstd::prelude::*;

use crate::errors::SolstakeError;
use crate::ops;
use crate::ops::{
    claim_err, claim_total, claimed_info, claimed_pool, emergency_err, emergency_info,
    emergency_pool, new_pool, stake_err, staked_info, staked_pool, unstake_err, unstaked_info,
    unstaked_pool,
};
use crate::state::{fresh_info, Pool, StakeInfo};

verus! {

/// Sum of the staked amounts over a sequence of positions.
pub open spec fn sum_amounts(s: Seq<StakeInfo>) -> int
    decreases s.len(),
{
    if s.len() == 0 {
        0
    } else {
        sum_amounts(s.drop_last()) + s.last().amount
    }
}

/// The first index holding `user`'s position, or `-1` if there is none.
pub open spec fn user_index(s: Seq<StakeInfo>, user: u64) -> int
    decreases s.len(),
{
    if s.len() == 0 {
        -1
    } else if s[0].user == user {
        0
    } else if user_index(s.drop_first(), user) < 0 {
        -1
    } else {
        user_index(s.drop_first(), user) + 1
    }
}

/// `user`'s position in `s`, if any.
pub open spec fn position_for(s: Seq<StakeInfo>, user: u64) -> Option<StakeInfo> {
    if user_index(s, user) >= 0 {
        Some(s[user_index(s, user)])
    } else {
        None
    }
}

/// `user_index` returns either a valid first match or `-1` when `user`
/// appears nowhere.
pub proof fn lemma_user_index_props(s: Seq<StakeInfo>, user: u64)
    ensures
        user_index(s, user) >= 0 ==> 0 <= user_index(s, user) < s.len() && s[user_index(
            s,
            user,
        )].user == user,
        user_index(s, user) < 0 ==> forall|j: int| 0 <= j < s.len() ==> s[j].user != user,
    decreases s.len(),
{
    if s.len() != 0 && s[0].user != user {
        lemma_user_index_props(s.drop_first(), user);
        if user_index(s, user) < 0 {
            assert forall|j: int| 0 <= j < s.len() implies s[j].user != user by {
                if j > 0 {
                    assert(s.drop_first()[j - 1] == s[j]);
                }
            }
        }
    }
}

/// A first match determines `user_index`.
pub proof fn lemma_user_index_of_first_match(s: Seq<StakeInfo>, user: u64, i: int)
    requires
        0 <= i < s.len(),
        s[i].user == user,
        forall|j: int| 0 <= j < i ==> s[j].user != user,
    ensures
        user_index(s, user) == i,
    decreases s.len(),
{
    if i == 0 {
    } else {
        assert(s[0].user != user);
        assert(s.drop_first()[i - 1].user == user);
        assert forall|j: int| 0 <= j < i - 1 implies s.drop_first()[j].user != user by {
            assert(s.drop_first()[j] == s[j + 1]);
        }
        lemma_user_index_of_first_match(s.drop_first(), user, i - 1);
    }
}

/// Updating one position changes the sum by the difference at that index.
pub proof fn lemma_sum_update(s: Seq<StakeInfo>, i: int, p: StakeInfo)
    requires
        0 <= i < s.len(),
    ensures
        sum_amounts(s.update(i, p)) == sum_amounts(s) - s[i].amount + p.amount,
    decreases s.len(),
{
    if i == s.len() - 1 {
        assert(s.update(i, p).drop_last() =~= s.drop_last());
        assert(s.update(i, p).last() == p);
    } else {
        assert(s.update(i, p).drop_last() =~= s.drop_last().update(i, p));
        lemma_sum_update(s.drop_last(), i, p);
    }
}

/// Appending a position grows the sum by its amount.
pub proof fn lemma_sum_push(s: Seq<StakeInfo>, p: StakeInfo)
    ensures
        sum_amounts(s.push(p)) == sum_amounts(s) + p.amount,
{
    assert(s.push(p).drop_last() =~= s);
    assert(s.push(p).last() == p);
}

/// One staking pool together with every position created under it.
pub struct StakeLedger {
    pool_id: u64,
    pool: Pool,
    positions: Vec<StakeInfo>,
}

impl StakeLedger {
    /// The key the pool record is stored under.
    pub closed spec fn pool_id(self) -> u64 {
        self.pool_id
    }

    /// The pool record.
    pub closed spec fn pool(self) -> Pool {
        self.pool
    }

    /// All positions of the pool, in order of first stake.
    pub closed spec fn positions(self) -> Seq<StakeInfo> {
        self.positions@
    }

    /// The accounting invariant, maintained by every operation: the pool's
    /// `total_staked` equals the sum of its positions' staked amounts, each
    /// participant holds at most one position, every position points back
    /// at this pool, and the lock period is non-negative.
    pub open spec fn wf(self) -> bool {
        &&& self.pool().wf()
        &&& self.pool().total_staked as int == sum_amounts(self.positions())
        &&& forall|i: int, j: int|
            0 <= i < j < self.positions().len() ==> #[trigger] self.positions()[i].user
                != #[trigger] self.positions()[j].user
        &&& forall|i: int|
            0 <= i < self.positions().len() ==> #[trigger] self.positions()[i].pool
                == self.pool_id()
    }

    /// Create the pool record, stored under `pool_id`, with zeroed totals.
    /// Fails with `InvalidAmount` if the requested lock period is negative.
    pub fn initialize_pool(
        pool_id: u64,
        authority: u64,
        reward_rate: u64,
        lock_period: i64,
        now: i64,
    ) -> (r: Result<StakeLedger, SolstakeError>)
        ensures
            match r {
                Ok(l) => lock_period >= 0 && l.wf() && l.pool_id() == pool_id && l.pool()
                    == new_pool(authority, reward_rate, lock_period, now) && l.positions().len()
                    == 0,
                Err(e) => lock_period < 0 && e == SolstakeError::InvalidAmount,
            },
    {
        if lock_period < 0 {
            return Err(SolstakeError::InvalidAmount);
        }
        Ok(
            StakeLedger {
                pool_id,
                pool: Pool {
                    authority,
                    reward_rate,
                    lock_period,
                    total_staked: 0,
                    total_rewards_distributed: 0,
                    last_update_time: now,
                },
                positions: Vec::new(),
            },
        )
    }

    /// The key the pool record is stored under.
    pub fn key(&self) -> (k: u64)
        ensures
            k == self.pool_id(),
    {
        self.pool_id
    }

    /// A copy of the pool record.
    pub fn pool_record(&self) -> (p: Pool)
        ensures
            p == self.pool(),
    {
        self.pool
    }

    /// How many positions have been created under the pool.
    pub fn positions_len(&self) -> (n: usize)
        ensures
            n == self.positions().len(),
    {
        self.positions.len()
    }

    /// The index of `user`'s position, if one exists.
    fn find_position(&self, user: u64) -> (r: Option<usize>)
        ensures
            match r {
                Some(i) => i < self.positions().len() && user_index(self.positions(), user)
                    == i as int,
                None => user_index(self.positions(), user) < 0,
            },
    {
        let n = self.positions.len();
        let mut i: usize = 0;
        while i < n
            invariant
                n == self.positions().len(),
                i <= n,
                forall|j: int| 0 <= j < i ==> self.positions()[j].user != user,
            decreases n - i,
        {
            if self.positions[i].user == user {
                proof {
                    lemma_user_index_of_first_match(self.positions(), user, i as int);
                }
                return Some(i);
            }
            i = i + 1;
        }
        proof {
            lemma_user_index_props(self.positions(), user);
        }
        None
    }

    /// A copy of `user`'s position, if one exists.
    pub fn position_of(&self, user: u64) -> (r: Option<StakeInfo>)
        ensures
            r == position_for(self.positions(), user),
    {
        match self.find_position(user) {
            Some(i) => Some(self.positions[i]),
            None => None,
        }
    }

    /// Stake `amount` for `user` at time `now`, creating the position on
    /// the participant's first stake.  On any error the ledger is left
    /// unchanged.
    pub fn stake(&mut self, user: u64, amount: u64, now: i64) -> (r: Result<(), SolstakeError>)
        requires
            old(self).wf(),
        ensures
            final(self).wf(),
            final(self).pool_id() == old(self).pool_id(),
            ({
                let s0 = old(self).positions();
                let i = user_index(s0, user);
                let prev = if i >= 0 {
                    s0[i]
                } else {
                    fresh_info(user, old(self).pool_id(), now)
                };
                let next = staked_info(prev, old(self).pool().reward_rate, amount, now);
                match r {
                    Ok(()) => stake_err(old(self).pool(), prev, amount, now) is None
                        && final(self).pool() == staked_pool(old(self).pool(), amount, now)
                        && final(self).positions() == (if i >= 0 {
                        s0.update(i, next)
                    } else {
                        s0.push(next)
                    }),
                    Err(e) => stake_err(old(self).pool(), prev, amount, now) == Some(e)
                        && final(self).pool() == old(self).pool()
                        && final(self).positions() == s0,
                }
            }),
    {
        proof {
            lemma_user_index_props(old(self).positions(), user);
        }
        match self.find_position(user) {
            Some(i) => {
                let mut p = self.positions[i];
                match ops::stake(&mut self.pool, &mut p, amount, now) {
                    Ok(()) => {
                        self.positions[i] = p;
                        proof {
                            lemma_sum_update(old(self).positions(), i as int, p);
                        }
                        Ok(())
                    },
                    Err(e) => Err(e),
                }
            },
            None => {
                let mut p = StakeInfo {
                    user,
                    pool: self.pool_id,
                    amount: 0,
                    stake_time: now,
                    last_claim_time: now,
                    pending_rewards: 0,
                };
                match ops::stake(&mut self.pool, &mut p, amount, now) {
                    Ok(()) => {
                        self.positions.push(p);
                        proof {
                            lemma_sum_push(old(self).positions(), p);
                        }
                        Ok(())
                    },
                    Err(e) => Err(e),
                }
            },
        }
    }

    /// Withdraw `amount` of `user`'s principal at time `now`.  Fails with
    /// `NotFound` if the participant never staked; on any error the ledger
    /// is left unchanged.
    pub fn unstake(&mut self, user: u64, amount: u64, now: i64) -> (r: Result<(), SolstakeError>)
        requires
            old(self).wf(),
        ensures
            final(self).wf(),
            final(self).pool_id() == old(self).pool_id(),
            ({
                let s0 = old(self).positions();
                let i = user_index(s0, user);
                match r {
                    Ok(()) => i >= 0 && unstake_err(old(self).pool(), s0[i], amount, now) is None
                        && final(self).pool() == unstaked_pool(old(self).pool(), amount, now)
                        && final(self).positions() == s0.update(
                        i,
                        unstaked_info(s0[i], old(self).pool().reward_rate, amount, now),
                    ),
                    Err(e) => final(self).pool() == old(self).pool() && final(self).positions()
                        == s0 && if i < 0 {
                        e == SolstakeError::NotFound
                    } else {
                        unstake_err(old(self).pool(), s0[i], amount, now) == Some(e)
                    },
                }
            }),
    {
        match self.find_position(user) {
            Some(i) => {
                proof {
                    lemma_user_index_props(old(self).positions(), user);
                }
                let mut p = self.positions[i];
                match ops::unstake(&mut self.pool, &mut p, amount, now) {
                    Ok(()) => {
                        self.positions[i] = p;
                        proof {
                            lemma_sum_update(old(self).positions(), i as int, p);
                        }
                        Ok(())
                    },
                    Err(e) => Err(e),
                }
            },
            None => Err(SolstakeError::NotFound),
        }
    }

    /// Pay out all rewards owed to `user` through `now` and return the paid
    /// amount.  Fails with `NotFound` if the participant never staked; on
    /// any error the ledger is left unchanged.
    pub fn claim_rewards(&mut self, user: u64, now: i64) -> (r: Result<u64, SolstakeError>)
        requires
            old(self).wf(),
        ensures
            final(self).wf(),
            final(self).pool_id() == old(self).pool_id(),
            ({
                let s0 = old(self).positions();
                let i = user_index(s0, user);
                match r {
                    Ok(paid) => i >= 0 && claim_err(old(self).pool(), s0[i], now) is None && paid
                        == claim_total(old(self).pool(), s0[i], now) && final(self).pool()
                        == claimed_pool(old(self).pool(), paid as int) && final(self).positions()
                        == s0.update(i, claimed_info(s0[i], now)),
                    Err(e) => final(self).pool() == old(self).pool() && final(self).positions()
                        == s0 && if i < 0 {
                        e == SolstakeError::NotFound
                    } else {
                        claim_err(old(self).pool(), s0[i], now) == Some(e)
                    },
                }
            }),
    {
        match self.find_position(user) {
            Some(i) => {
                proof {
                    lemma_user_index_props(old(self).positions(), user);
                }
                let mut p = self.positions[i];
                match ops::claim_rewards(&mut self.pool, &mut p, now) {
                    Ok(paid) => {
                        self.positions[i] = p;
                        proof {
                            lemma_sum_update(old(self).positions(), i as int, p);
                        }
                        Ok(paid)
                    },
                    Err(e) => Err(e),
                }
            },
            None => Err(SolstakeError::NotFound),
        }
    }

    /// Return `user`'s entire principal immediately, bypassing the lock
    /// period and forfeiting all rewards, and return the amount paid back.
    /// Fails with `NotFound` if the participant never staked; on any error
    /// the ledger is left unchanged.
    pub fn emergency_withdraw(&mut self, user: u64) -> (r: Result<u64, SolstakeError>)
        requires
            old(self).wf(),
        ensures
            final(self).wf(),
            final(self).pool_id() == old(self).pool_id(),
            ({
                let s0 = old(self).positions();
                let i = user_index(s0, user);
                match r {
                    Ok(returned) => i >= 0 && emergency_err(old(self).pool(), s0[i]) is None
                        && returned == s0[i].amount && final(self).pool() == emergency_pool(
                        old(self).pool(),
                        s0[i],
                    ) && final(self).positions() == s0.update(i, emergency_info(s0[i])),
                    Err(e) => final(self).pool() == old(self).pool() && final(self).positions()
                        == s0 && if i < 0 {
                        e == SolstakeError::NotFound
                    } else {
                        emergency_err(old(self).pool(), s0[i]) == Some(e)
                    },
                }
            }),
    {
        match self.find_position(user) {
            Some(i) => {
                proof {
                    lemma_user_index_props(old(self).positions(), user);
                }
                let mut p = self.positions[i];
                match ops::emergency_withdraw(&mut self.pool, &mut p) {
                    Ok(returned) => {
                        self.positions[i] = p;
                        proof {
                            lemma_sum_update(old(self).positions(), i as int, p);
                        }
                        Ok(returned)
                    },
                    Err(e) => Err(e),
                }
            },
            None => Err(SolstakeError::NotFound),
        }
    }
}

} // verus!
