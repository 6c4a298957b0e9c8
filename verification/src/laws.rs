//! Laws of the ledger, proved from the definitions that the contracts use.

use crate::account::{
    reward_for, StakingAccount, ANNUAL_RATE_DENOMINATOR, ANNUAL_RATE_NUMERATOR, SECONDS_PER_YEAR,
};
use crate::error::StakingError;
use crate::funds::Funds;
use crate::identity::Identity;
use crate::operations::penalized;
use vstd::prelude::*;

verus! {

/// Reward is never negative, and no time earns nothing.
pub proof fn lemma_reward_for_nonnegative(staked: nat, elapsed: nat)
    ensures
        reward_for(staked as int, elapsed as int) >= 0,
        reward_for(staked as int, 0) == 0,
{
    let per_year: int = ANNUAL_RATE_DENOMINATOR * SECONDS_PER_YEAR;
    assert(per_year == 3_153_600_000) by (nonlinear_arith)
        requires
            per_year == ANNUAL_RATE_DENOMINATOR * SECONDS_PER_YEAR,
    ;
    assert(staked * ANNUAL_RATE_NUMERATOR * elapsed >= 0) by (nonlinear_arith);
    assert(staked * ANNUAL_RATE_NUMERATOR * 0 == 0) by (nonlinear_arith);
}

/// Reward is linear in time up to rounding: the rewards of two stretches of
/// time, each rounded down, add up to the reward of the whole time or to one
/// unit less, never to more.
pub proof fn lemma_reward_for_splits(staked: nat, first: nat, second: nat)
    ensures
        reward_for(staked as int, first as int) + reward_for(staked as int, second as int)
            <= reward_for(staked as int, (first + second) as int),
        reward_for(staked as int, (first + second) as int) <= reward_for(
            staked as int,
            first as int,
        )
            + reward_for(staked as int, second as int) + 1,
{
    let per_year: int = ANNUAL_RATE_DENOMINATOR * SECONDS_PER_YEAR;
    let a: int = staked * ANNUAL_RATE_NUMERATOR * first;
    let b: int = staked * ANNUAL_RATE_NUMERATOR * second;
    let whole: int = staked * ANNUAL_RATE_NUMERATOR * (first + second);
    assert(per_year == 3_153_600_000) by (nonlinear_arith)
        requires
            per_year == ANNUAL_RATE_DENOMINATOR * SECONDS_PER_YEAR,
    ;
    assert(whole == a + b && a >= 0 && b >= 0) by (nonlinear_arith)
        requires
            a == staked * ANNUAL_RATE_NUMERATOR * first,
            b == staked * ANNUAL_RATE_NUMERATOR * second,
            whole == staked * ANNUAL_RATE_NUMERATOR * (first + second),
    ;
    assert(a / per_year + b / per_year <= (a + b) / per_year <= a / per_year + b / per_year + 1);
}

/// Accrual in two steps, at `midway` and then at `now`, gives the record that
/// one accrual at `now` gives, but for the reward, which may be one unit less:
/// each step rounds down.
///
/// Stated for a `midway` that is not later than `now`, and for a reward as of
/// `now` that fits its field; both steps then fit as well.
pub proof fn lemma_accrual_splits(record: StakingAccount, midway: i64, now: i64)
    requires
        midway <= now,
        record.accrual_fits(now),
    ensures
        record.accrual_fits(midway),
        record.accrued(midway).accrual_fits(now),
        record.accrued(midway).accrued(now).reward_amount <= record.accrued(now).reward_amount,
        record.accrued(now).reward_amount <= record.accrued(midway).accrued(now).reward_amount
            + 1,
        record.accrued(midway).accrued(now) == (StakingAccount {
            reward_amount: record.accrued(midway).accrued(now).reward_amount,
            ..record.accrued(now)
        }),
{
    let staked = record.staked_amount as nat;
    let first = record.elapsed(midway) as nat;
    let whole = record.elapsed(now) as nat;
    lemma_reward_for_nonnegative(staked, first);
    lemma_reward_for_nonnegative(staked, whole);
    if midway > record.last_accrual_time {
        let second = (now - midway) as nat;
        assert(first + second == whole);
        lemma_reward_for_splits(staked, first, second);
        lemma_reward_for_nonnegative(staked, second);
        assert(record.accrued(midway).elapsed(now) == second);
    } else {
        assert(record.accrued(midway) == record);
    }
}

/// Accrual at the time of the last accrual, or at an earlier time, changes
/// nothing.
pub proof fn lemma_accrual_without_time(record: StakingAccount, now: i64)
    requires
        now <= record.last_accrual_time,
    ensures
        record.accrual_fits(now),
        record.accrued(now) == record,
{
    lemma_reward_for_nonnegative(record.staked_amount as nat, 0);
}

/// Accrual leaves the stake, the owner and the streak alone, never lowers the
/// reward and never moves the accrual time back.
pub proof fn lemma_accrual_only_adds(record: StakingAccount, now: i64)
    requires
        record.accrual_fits(now),
    ensures
        record.accrued(now).staked_amount == record.staked_amount,
        record.accrued(now).owner == record.owner,
        record.accrued(now).compound_streak == record.compound_streak,
        record.accrued(now).reward_amount >= record.reward_amount,
        record.accrued(now).last_accrual_time >= record.last_accrual_time,
        record.accrued(now).last_accrual_time >= now,
        record.accrued(now).follows(record),
{
    lemma_reward_for_nonnegative(record.staked_amount as nat, record.elapsed(now) as nat);
}

/// Compounding moves value from reward to stake and makes none: after it the
/// reward is zero, and stake and reward together are what they were once the
/// reward was brought up to date.
pub proof fn lemma_compound_conserves_value(record: StakingAccount, caller: Identity, now: i64)
    requires
        record.compound_refusal(caller, now) is None,
    ensures
        record.after_compound(now).reward_amount == 0,
        record.after_compound(now).staked_amount + record.after_compound(now).reward_amount
            == record.accrued(now).staked_amount + record.accrued(now).reward_amount,
{
    lemma_reward_for_nonnegative(record.staked_amount as nat, record.elapsed(now) as nat);
}

/// With the penalty a claim pays at most the reward, and forfeits at least a
/// tenth of it, rounded down.
pub proof fn lemma_penalty_bounds(reward: nat)
    ensures
        0 <= penalized(reward as int) <= reward,
        reward - penalized(reward as int) >= reward / 10,
        penalized(reward as int) == reward * 9 / 10,
{
}

/// Whoever is not the owner is refused by every operation, whatever else
/// holds of the request.
pub proof fn lemma_stranger_is_refused(
    record: StakingAccount,
    funds: Funds,
    caller: Identity,
    amount: u64,
    apply_penalty: bool,
    now: i64,
)
    requires
        caller != record.owner,
    ensures
        record.stake_refusal(funds, caller, amount, now) == Some(
            StakingError::Unauthorized,
        ),
        record.unstake_refusal(funds, caller, amount, now) == Some(
            StakingError::Unauthorized,
        ),
        record.claim_refusal(funds, caller, apply_penalty, now) == Some(
            StakingError::Unauthorized,
        ),
        record.compound_refusal(caller, now) == Some(StakingError::Unauthorized),
{
}

/// Every state of a record follows itself.
pub proof fn lemma_follows_reflexive(record: StakingAccount)
    ensures
        record.follows(record),
{
}

/// What follows a later state follows every earlier one: the owner, the order
/// of accrual times and the sign of the balances hold along any sequence of
/// operations.
pub proof fn lemma_follows_transitive(
    first: StakingAccount,
    second: StakingAccount,
    third: StakingAccount,
)
    requires
        second.follows(first),
        third.follows(second),
    ensures
        third.follows(first),
{
}

} // verus!
