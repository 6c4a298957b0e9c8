//! The operations that create and change a staking record.
//!
//! Every operation that changes a record first checks that the caller owns
//! it, then brings the reward up to date, and only then does its own work, so
//! that the time before the call is rewarded at the stake held before it.
//!
//! A refused operation leaves the record and the funds exactly as they were.
//! The one exception is an unstake of more than is staked: the accrual made
//! on the way stays.

use crate::account::{update_rewards, StakingAccount};
use crate::error::StakingError;
use crate::funds::Funds;
use crate::identity::Identity;
use vstd::prelude::*;

verus! {

/// Of ten parts of a reward claimed with the penalty, this many are paid.
pub const PENALTY_PAID_PARTS: u64 = 9;

/// The parts into which a reward claimed with the penalty is divided.
pub const PENALTY_ALL_PARTS: u64 = 10;

/// What is paid of `reward` when the penalty applies: nine tenths, rounded
/// down. The rest is forfeited.
pub open spec fn penalized(reward: int) -> int {
    reward * PENALTY_PAID_PARTS / PENALTY_ALL_PARTS as int
}

impl StakingAccount {
    /// Why [`stake`] is refused, if it is. The first reason that applies is
    /// the one given.
    pub open spec fn stake_refusal(
        self,
        funds: Funds,
        caller: Identity,
        amount: u64,
        now: i64,
    ) -> Option<StakingError> {
        if caller != self.owner {
            Some(StakingError::Unauthorized)
        } else if !self.accrual_fits(now) {
            Some(StakingError::Overflow)
        } else if funds.deposit_refusal(amount) is Some {
            funds.deposit_refusal(amount)
        } else if self.staked_amount + amount > u64::MAX {
            Some(StakingError::Overflow)
        } else {
            None
        }
    }

    /// The record after a stake of `amount` at `now`.
    pub open spec fn after_stake(self, amount: u64, now: i64) -> StakingAccount {
        StakingAccount {
            staked_amount: (self.staked_amount + amount) as u64,
            ..self.accrued(now)
        }
    }

    /// Why [`unstake`] is refused, if it is. The first reason that applies is
    /// the one given.
    pub open spec fn unstake_refusal(
        self,
        funds: Funds,
        caller: Identity,
        amount: u64,
        now: i64,
    ) -> Option<StakingError> {
        if caller != self.owner {
            Some(StakingError::Unauthorized)
        } else if !self.accrual_fits(now) {
            Some(StakingError::Overflow)
        } else if amount > self.staked_amount {
            Some(StakingError::InsufficientStakedAmount)
        } else {
            funds.payout_refusal(amount)
        }
    }

    /// The record after an unstake of `amount` at `now`.
    pub open spec fn after_unstake(self, amount: u64, now: i64) -> StakingAccount {
        StakingAccount {
            staked_amount: (self.staked_amount - amount) as u64,
            ..self.accrued(now)
        }
    }

    /// What a claim at `now` pays: the whole reward as of `now`, or, with the
    /// penalty, [`penalized`] of it.
    pub open spec fn claim_payout(self, apply_penalty: bool, now: i64) -> int {
        if apply_penalty {
            penalized(self.accrued_reward(now))
        } else {
            self.accrued_reward(now)
        }
    }

    /// Why [`claim_reward`] is refused, if it is. The first reason that
    /// applies is the one given.
    pub open spec fn claim_refusal(
        self,
        funds: Funds,
        caller: Identity,
        apply_penalty: bool,
        now: i64,
    ) -> Option<StakingError> {
        if caller != self.owner {
            Some(StakingError::Unauthorized)
        } else if !self.accrual_fits(now) {
            Some(StakingError::Overflow)
        } else {
            funds.payout_refusal(self.claim_payout(apply_penalty, now) as u64)
        }
    }

    /// The record after a claim at `now`: nothing is left of the reward,
    /// whatever was paid, and the compound streak starts over.
    pub open spec fn after_claim(self, now: i64) -> StakingAccount {
        StakingAccount { reward_amount: 0, compound_streak: 0, ..self.accrued(now) }
    }

    /// Why [`compound`] is refused, if it is. The first reason that applies
    /// is the one given.
    pub open spec fn compound_refusal(self, caller: Identity, now: i64) -> Option<StakingError> {
        if caller != self.owner {
            Some(StakingError::Unauthorized)
        } else if !self.accrual_fits(now) {
            Some(StakingError::Overflow)
        } else if self.staked_amount + self.accrued_reward(now) > u64::MAX {
            Some(StakingError::Overflow)
        } else if self.compound_streak + 1 > u64::MAX {
            Some(StakingError::Overflow)
        } else {
            None
        }
    }

    /// The record after a compound at `now`: the reward as of `now` has become
    /// stake, and the streak is one longer.
    pub open spec fn after_compound(self, now: i64) -> StakingAccount {
        StakingAccount {
            staked_amount: (self.staked_amount + self.accrued_reward(now)) as u64,
            reward_amount: 0,
            compound_streak: (self.compound_streak + 1) as u64,
            ..self.accrued(now)
        }
    }
}

/// Creates the record of `owner` at time `now`: nothing staked, no reward, no
/// streak, and accrual starting at `now`.
pub fn initialize(owner: Identity, now: i64) -> (record: StakingAccount)
    ensures
        record == (StakingAccount {
            owner,
            staked_amount: 0,
            reward_amount: 0,
            last_accrual_time: now,
            compound_streak: 0,
        }),
{
    StakingAccount {
        owner,
        staked_amount: 0,
        reward_amount: 0,
        last_accrual_time: now,
        compound_streak: 0,
    }
}

/// Stakes `amount` more at time `now`.
///
/// The reward is first brought up to date at the stake held so far. Then
/// `amount` moves from the caller's balance to the custodian's and is added to
/// the staked amount. A stake of zero is accepted and only accrues.
///
/// Refused exactly when [`StakingAccount::stake_refusal`] names an error:
/// `Unauthorized` for a caller who is not the owner, `InsufficientFunds` when
/// the caller cannot cover `amount`, `Overflow` when a balance would leave its
/// range. Record and funds are then unchanged.
pub fn stake(
    record: &mut StakingAccount,
    funds: &mut Funds,
    caller: &Identity,
    amount: u64,
    now: i64,
) -> (res: Result<(), StakingError>)
    ensures
        match old(record).stake_refusal(*old(funds), *caller, amount, now) {
            Some(e) => {
                &&& res == Err::<(), StakingError>(e)
                &&& *final(record) == *old(record)
                &&& *final(funds) == *old(funds)
            },
            None => {
                &&& res is Ok
                &&& *final(record) == old(record).after_stake(amount, now)
                &&& *final(funds) == old(funds).deposited(amount)
            },
        },
        *caller != old(record).owner ==> {
            &&& res == Err::<(), StakingError>(StakingError::Unauthorized)
            &&& *final(record) == *old(record)
            &&& *final(funds) == *old(funds)
        },
        res is Ok ==> final(record).staked_amount == old(record).staked_amount + amount,
        final(record).follows(*old(record)),
        final(funds).total() == old(funds).total(),
{
    if !(*caller == record.owner) {
        return Err(StakingError::Unauthorized);
    }
    let mut updated = *record;
    let mut balances = *funds;
    match update_rewards(&mut updated, now) {
        Ok(()) => {},
        Err(e) => {
            return Err(e);
        },
    }
    match balances.transfer_to_custodian(amount) {
        Ok(()) => {},
        Err(e) => {
            return Err(e);
        },
    }
    match updated.staked_amount.checked_add(amount) {
        Some(staked) => {
            updated.staked_amount = staked;
        },
        None => {
            return Err(StakingError::Overflow);
        },
    }
    *record = updated;
    *funds = balances;
    Ok(())
}

/// Takes `amount` out of the stake at time `now`.
///
/// The reward is first brought up to date at the stake held so far. Then
/// `amount` moves from the custodian's balance to the caller's and is taken
/// off the staked amount. An unstake of zero is accepted and only accrues.
///
/// Refused exactly when [`StakingAccount::unstake_refusal`] names an error.
/// An `amount` above the staked amount gives `InsufficientStakedAmount`; the
/// accrual made before that test stays in the record, and nothing else
/// changes. Every other refusal leaves record and funds unchanged.
pub fn unstake(
    record: &mut StakingAccount,
    funds: &mut Funds,
    caller: &Identity,
    amount: u64,
    now: i64,
) -> (res: Result<(), StakingError>)
    ensures
        match old(record).unstake_refusal(*old(funds), *caller, amount, now) {
            Some(e) => {
                &&& res == Err::<(), StakingError>(e)
                &&& *final(record) == if e == StakingError::InsufficientStakedAmount {
                    old(record).accrued(now)
                } else {
                    *old(record)
                }
                &&& *final(funds) == *old(funds)
            },
            None => {
                &&& res is Ok
                &&& *final(record) == old(record).after_unstake(amount, now)
                &&& *final(funds) == old(funds).paid_out(amount)
            },
        },
        *caller != old(record).owner ==> {
            &&& res == Err::<(), StakingError>(StakingError::Unauthorized)
            &&& *final(record) == *old(record)
            &&& *final(funds) == *old(funds)
        },
        *caller == old(record).owner && old(record).accrual_fits(now) && amount > old(
            record,
        ).staked_amount ==> {
            &&& res == Err::<(), StakingError>(StakingError::InsufficientStakedAmount)
            &&& *final(record) == old(record).accrued(now)
            &&& final(record).staked_amount == old(record).staked_amount
        },
        res is Ok ==> final(record).staked_amount == old(record).staked_amount - amount,
        res is Err ==> final(record).staked_amount == old(record).staked_amount,
        final(record).staked_amount <= old(record).staked_amount,
        final(record).follows(*old(record)),
        final(funds).total() == old(funds).total(),
{
    if !(*caller == record.owner) {
        return Err(StakingError::Unauthorized);
    }
    let mut updated = *record;
    let mut balances = *funds;
    match update_rewards(&mut updated, now) {
        Ok(()) => {},
        Err(e) => {
            return Err(e);
        },
    }
    if amount > updated.staked_amount {
        *record = updated;
        return Err(StakingError::InsufficientStakedAmount);
    }
    match balances.transfer_to_caller(amount) {
        Ok(()) => {},
        Err(e) => {
            return Err(e);
        },
    }
    updated.staked_amount = updated.staked_amount - amount;
    *record = updated;
    *funds = balances;
    Ok(())
}

/// Pays out the reward at time `now` and returns what was paid.
///
/// The reward is first brought up to date. With `apply_penalty` nine tenths of
/// it are paid, rounded down, and the rest is forfeited; without, all of it is
/// paid. The payout moves from the custodian's balance to the caller's. The
/// reward is then zero whatever was paid, and the compound streak is zero.
///
/// Refused exactly when [`StakingAccount::claim_refusal`] names an error.
/// Record and funds are then unchanged.
pub fn claim_reward(
    record: &mut StakingAccount,
    funds: &mut Funds,
    caller: &Identity,
    apply_penalty: bool,
    now: i64,
) -> (res: Result<u64, StakingError>)
    ensures
        match old(record).claim_refusal(*old(funds), *caller, apply_penalty, now) {
            Some(e) => {
                &&& res == Err::<u64, StakingError>(e)
                &&& *final(record) == *old(record)
                &&& *final(funds) == *old(funds)
            },
            None => {
                &&& res matches Ok(payout)
                &&& payout == old(record).claim_payout(apply_penalty, now)
                &&& *final(record) == old(record).after_claim(now)
                &&& *final(funds) == old(funds).paid_out(payout)
            },
        },
        *caller != old(record).owner ==> {
            &&& res == Err::<u64, StakingError>(StakingError::Unauthorized)
            &&& *final(record) == *old(record)
            &&& *final(funds) == *old(funds)
        },
        res matches Ok(payout) ==> payout == if apply_penalty {
            penalized(old(record).accrued_reward(now))
        } else {
            old(record).accrued_reward(now)
        },
        res is Ok ==> final(record).reward_amount == 0 && final(record).compound_streak == 0,
        final(record).follows(*old(record)),
        final(funds).total() == old(funds).total(),
{
    if !(*caller == record.owner) {
        return Err(StakingError::Unauthorized);
    }
    let mut updated = *record;
    let mut balances = *funds;
    match update_rewards(&mut updated, now) {
        Ok(()) => {},
        Err(e) => {
            return Err(e);
        },
    }
    let payout = if apply_penalty {
        (updated.reward_amount as u128 * PENALTY_PAID_PARTS as u128 / PENALTY_ALL_PARTS as u128) as u64
    } else {
        updated.reward_amount
    };
    match balances.transfer_to_caller(payout) {
        Ok(()) => {},
        Err(e) => {
            return Err(e);
        },
    }
    updated.reward_amount = 0;
    updated.compound_streak = 0;
    *record = updated;
    *funds = balances;
    Ok(payout)
}

/// Turns the reward into stake at time `now`.
///
/// The reward is first brought up to date. All of it is then added to the
/// staked amount, the reward becomes zero, and the compound streak grows by
/// one. No value moves: stake and reward together are what they were after
/// the accrual.
///
/// Refused exactly when [`StakingAccount::compound_refusal`] names an error.
/// The record is then unchanged.
pub fn compound(record: &mut StakingAccount, caller: &Identity, now: i64) -> (res: Result<
    (),
    StakingError,
>)
    ensures
        match old(record).compound_refusal(*caller, now) {
            Some(e) => res == Err::<(), StakingError>(e) && *final(record) == *old(record),
            None => res is Ok && *final(record) == old(record).after_compound(now),
        },
        *caller != old(record).owner ==> {
            &&& res == Err::<(), StakingError>(StakingError::Unauthorized)
            &&& *final(record) == *old(record)
        },
        res is Ok ==> {
            &&& final(record).reward_amount == 0
            &&& final(record).staked_amount + final(record).reward_amount == old(
                record,
            ).staked_amount + old(record).accrued_reward(now)
            &&& final(record).compound_streak == old(record).compound_streak + 1
        },
        final(record).follows(*old(record)),
{
    if !(*caller == record.owner) {
        return Err(StakingError::Unauthorized);
    }
    let mut updated = *record;
    match update_rewards(&mut updated, now) {
        Ok(()) => {},
        Err(e) => {
            return Err(e);
        },
    }
    let staked = match updated.staked_amount.checked_add(updated.reward_amount) {
        Some(staked) => staked,
        None => {
            return Err(StakingError::Overflow);
        },
    };
    let streak = match updated.compound_streak.checked_add(1) {
        Some(streak) => streak,
        None => {
            return Err(StakingError::Overflow);
        },
    };
    updated.staked_amount = staked;
    updated.reward_amount = 0;
    updated.compound_streak = streak;
    *record = updated;
    Ok(())
}

} // verus!
