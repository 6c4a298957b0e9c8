//! The staking record and the accrual of reward on it.

use crate::error::StakingError;
use crate::identity::Identity;
use vstd::prelude::*;

verus! {

/// Numerator of the yearly reward rate: five percent.
pub const ANNUAL_RATE_NUMERATOR: u64 = 5;

/// Denominator of the yearly reward rate.
pub const ANNUAL_RATE_DENOMINATOR: u64 = 100;

/// Seconds in a year of 365 days.
pub const SECONDS_PER_YEAR: u64 = 31_536_000;

/// The ledger record of one owner.
#[derive(Clone, Copy, Debug, PartialEq, Eq)]
pub struct StakingAccount {
    /// Who controls the record. Set at creation, never changed.
    pub owner: Identity,
    /// The amount currently staked.
    pub staked_amount: u64,
    /// Reward accrued and not yet claimed or compounded.
    pub reward_amount: u64,
    /// The time, in seconds since the epoch, up to which reward is computed.
    pub last_accrual_time: i64,
    /// Compounds in a row since the last claim.
    pub compound_streak: u64,
}

/// The reward that `staked` units earn in `elapsed` seconds: simple interest
/// at the yearly rate, rounded down to whole units.
pub open spec fn reward_for(staked: int, elapsed: int) -> int {
    staked * ANNUAL_RATE_NUMERATOR * elapsed / (ANNUAL_RATE_DENOMINATOR * SECONDS_PER_YEAR)
}

impl StakingAccount {
    /// Seconds from the last accrual to `now`; zero when `now` is not later.
    pub open spec fn elapsed(self, now: i64) -> int {
        if now > self.last_accrual_time {
            now - self.last_accrual_time
        } else {
            0
        }
    }

    /// The reward balance once accrual is brought up to `now`, as a
    /// mathematical integer.
    pub open spec fn accrued_reward(self, now: i64) -> int {
        self.reward_amount + reward_for(self.staked_amount as int, self.elapsed(now))
    }

    /// Whether the reward balance as of `now` fits the 64-bit field.
    pub open spec fn accrual_fits(self, now: i64) -> bool {
        self.accrued_reward(now) <= u64::MAX
    }

    /// What holds between a record and any earlier state of it: the owner is
    /// the same, the accrual time has not gone back, and no balance is
    /// negative.
    pub open spec fn follows(self, earlier: StakingAccount) -> bool {
        &&& self.owner == earlier.owner
        &&& self.last_accrual_time >= earlier.last_accrual_time
        &&& self.staked_amount >= 0
        &&& self.reward_amount >= 0
        &&& self.compound_streak >= 0
    }

    /// The record after accrual up to `now`, where that fits: the reward is
    /// brought up to date and the accrual time moves forward to `now`, never
    /// backward.
    pub open spec fn accrued(self, now: i64) -> StakingAccount {
        StakingAccount {
            reward_amount: self.accrued_reward(now) as u64,
            last_accrual_time: if now > self.last_accrual_time {
                now
            } else {
                self.last_accrual_time
            },
            ..self
        }
    }
}

/// Seconds from `last` to `now`, or zero when `now` is not later than `last`.
fn elapsed_seconds(last: i64, now: i64) -> (elapsed: u64)
    ensures
        elapsed == if now > last {
            now - last
        } else {
            0
        },
{
    if now > last {
        (now as i128 - last as i128) as u64
    } else {
        0
    }
}

/// The reward on `staked` over `elapsed` seconds, or `None` when it is more
/// than a 64-bit field can hold. The product is formed in 128 bits.
fn reward_over(staked: u64, elapsed: u64) -> (reward: Option<u64>)
    ensures
        match reward {
            Some(r) => r == reward_for(staked as int, elapsed as int),
            None => reward_for(staked as int, elapsed as int) > u64::MAX,
        },
{
    assert(ANNUAL_RATE_DENOMINATOR * SECONDS_PER_YEAR == 3_153_600_000) by (nonlinear_arith);
    let weighted: u128 = staked as u128 * ANNUAL_RATE_NUMERATOR as u128;
    let per_year: u128 = ANNUAL_RATE_DENOMINATOR as u128 * SECONDS_PER_YEAR as u128;
    match weighted.checked_mul(elapsed as u128) {
        Some(product) => {
            let reward: u128 = product / per_year;
            if reward <= u64::MAX as u128 {
                Some(reward as u64)
            } else {
                None
            }
        },
        None => None,
    }
}

/// Brings the reward of `record` up to date as of `now`.
///
/// The reward grows by [`reward_for`] the staked amount over the seconds since
/// the last accrual, and the accrual time becomes `now`. A `now` that is not
/// later than the last accrual counts as no time at all: nothing is earned and
/// the accrual time stays where it was. The staked amount, the owner and the
/// compound streak are never touched.
///
/// Fails with [`StakingError::Overflow`], leaving the record as it was,
/// exactly when the new reward balance would not fit in 64 bits.
pub fn update_rewards(record: &mut StakingAccount, now: i64) -> (res: Result<(), StakingError>)
    ensures
        old(record).accrual_fits(now) ==> res is Ok && *final(record) == old(record).accrued(now),
        !old(record).accrual_fits(now) ==> res == Err::<(), StakingError>(StakingError::Overflow)
            && *final(record) == *old(record),
        final(record).staked_amount == old(record).staked_amount,
        final(record).follows(*old(record)),
{
    let elapsed = elapsed_seconds(record.last_accrual_time, now);
    let earned = match reward_over(record.staked_amount, elapsed) {
        Some(earned) => earned,
        None => {
            return Err(StakingError::Overflow);
        },
    };
    match record.reward_amount.checked_add(earned) {
        Some(reward) => {
            record.reward_amount = reward;
            if now > record.last_accrual_time {
                record.last_accrual_time = now;
            }
            Ok(())
        },
        None => Err(StakingError::Overflow),
    }
}

} // verus!
