use staking_ledger::{
    claim_reward, compound, initialize, stake, unstake, update_rewards, Funds, Identity,
    StakingAccount, StakingError,
};

const YEAR: i64 = 31_536_000;
const T0: i64 = 1_700_000_000;

fn alice() -> Identity {
    Identity::new([0xA1; 32])
}

fn mallory() -> Identity {
    let mut bytes = [0xA1; 32];
    bytes[17] = 0x17;
    Identity::new(bytes)
}

fn account(staked: u64, reward: u64, last: i64, streak: u64) -> StakingAccount {
    StakingAccount {
        owner: alice(),
        staked_amount: staked,
        reward_amount: reward,
        last_accrual_time: last,
        compound_streak: streak,
    }
}

fn funds(caller: u64, custodian: u64) -> Funds {
    Funds { caller, custodian }
}

#[test]
fn year_of_stake_then_compound_then_penalized_claim() {
    let mut r = account(1000, 0, T0, 0);
    let mut f = funds(0, 10_000);
    assert_eq!(update_rewards(&mut r, T0 + YEAR), Ok(()));
    assert_eq!(r.reward_amount, 50);
    assert_eq!(compound(&mut r, &alice(), T0 + YEAR), Ok(()));
    assert_eq!(r.staked_amount, 1050);
    assert_eq!(r.reward_amount, 0);
    assert_eq!(r.compound_streak, 1);
    assert_eq!(claim_reward(&mut r, &mut f, &alice(), true, T0 + YEAR), Ok(0));
    assert_eq!(r.reward_amount, 0);
    assert_eq!(r.compound_streak, 0);
    assert_eq!(r.staked_amount, 1050);
    assert_eq!(f, funds(0, 10_000));
}

#[test]
fn stake_moves_value_and_adds_to_stake() {
    let mut r = initialize(alice(), T0);
    let mut f = funds(5000, 20);
    assert_eq!(stake(&mut r, &mut f, &alice(), 1500, T0 + 10), Ok(()));
    assert_eq!(r, account(1500, 0, T0 + 10, 0));
    assert_eq!(f, funds(3500, 1520));
}

#[test]
fn stake_rewards_earlier_time_at_earlier_stake() {
    let mut r = account(1000, 0, T0, 3);
    let mut f = funds(9000, 1000);
    assert_eq!(stake(&mut r, &mut f, &alice(), 9000, T0 + YEAR), Ok(()));
    assert_eq!(r, account(10_000, 50, T0 + YEAR, 3));
    assert_eq!(f, funds(0, 10_000));
    assert_eq!(stake(&mut r, &mut f, &alice(), 0, T0 + 2 * YEAR), Ok(()));
    assert_eq!(r, account(10_000, 550, T0 + 2 * YEAR, 3));
}

#[test]
fn stake_of_zero_only_accrues() {
    let mut r = account(2000, 1, T0, 0);
    let mut f = funds(0, 0);
    assert_eq!(stake(&mut r, &mut f, &alice(), 0, T0 + YEAR), Ok(()));
    assert_eq!(r, account(2000, 101, T0 + YEAR, 0));
    assert_eq!(f, funds(0, 0));
}

#[test]
fn stake_with_earlier_clock_keeps_accrual_time() {
    let mut r = account(2000, 1, T0, 0);
    let mut f = funds(10, 0);
    assert_eq!(stake(&mut r, &mut f, &alice(), 10, T0 - 5), Ok(()));
    assert_eq!(r, account(2010, 1, T0, 0));
}

#[test]
fn stake_without_funds_is_refused() {
    let mut r = account(1000, 0, T0, 0);
    let mut f = funds(99, 1000);
    assert_eq!(
        stake(&mut r, &mut f, &alice(), 100, T0 + YEAR),
        Err(StakingError::InsufficientFunds)
    );
    assert_eq!(r, account(1000, 0, T0, 0));
    assert_eq!(f, funds(99, 1000));
}

#[test]
fn stake_past_the_field_is_overflow() {
    let mut r = account(u64::MAX - 5, 0, T0, 0);
    let mut f = funds(10, 0);
    assert_eq!(stake(&mut r, &mut f, &alice(), 6, T0), Err(StakingError::Overflow));
    assert_eq!(r, account(u64::MAX - 5, 0, T0, 0));
    assert_eq!(f, funds(10, 0));
    assert_eq!(stake(&mut r, &mut f, &alice(), 5, T0), Ok(()));
    assert_eq!(r.staked_amount, u64::MAX);
    assert_eq!(f, funds(5, 5));
}

#[test]
fn stake_past_the_custodian_balance_is_overflow() {
    let mut r = account(0, 0, T0, 0);
    let mut f = funds(10, u64::MAX - 3);
    assert_eq!(stake(&mut r, &mut f, &alice(), 4, T0), Err(StakingError::Overflow));
    assert_eq!(r, account(0, 0, T0, 0));
    assert_eq!(f, funds(10, u64::MAX - 3));
}

#[test]
fn stake_with_overflowing_accrual_is_overflow() {
    let mut r = account(1000, u64::MAX, T0, 0);
    let mut f = funds(10, 0);
    assert_eq!(stake(&mut r, &mut f, &alice(), 4, T0 + YEAR), Err(StakingError::Overflow));
    assert_eq!(r, account(1000, u64::MAX, T0, 0));
    assert_eq!(f, funds(10, 0));
}

#[test]
fn unstake_moves_value_back() {
    let mut r = account(1000, 0, T0, 2);
    let mut f = funds(1, 5000);
    assert_eq!(unstake(&mut r, &mut f, &alice(), 400, T0 + YEAR), Ok(()));
    assert_eq!(r, account(600, 50, T0 + YEAR, 2));
    assert_eq!(f, funds(401, 4600));
    assert_eq!(unstake(&mut r, &mut f, &alice(), 600, T0 + YEAR), Ok(()));
    assert_eq!(r, account(0, 50, T0 + YEAR, 2));
    assert_eq!(f, funds(1001, 4000));
}

#[test]
fn unstake_of_zero_only_accrues() {
    let mut r = account(1000, 0, T0, 0);
    let mut f = funds(0, 0);
    assert_eq!(unstake(&mut r, &mut f, &alice(), 0, T0 + YEAR), Ok(()));
    assert_eq!(r, account(1000, 50, T0 + YEAR, 0));
    assert_eq!(f, funds(0, 0));
}

#[test]
fn unstake_of_more_than_staked_keeps_only_the_accrual() {
    let mut r = account(1000, 0, T0, 4);
    let mut f = funds(0, 5000);
    assert_eq!(
        unstake(&mut r, &mut f, &alice(), 1001, T0 + YEAR),
        Err(StakingError::InsufficientStakedAmount)
    );
    assert_eq!(r, account(1000, 50, T0 + YEAR, 4));
    assert_eq!(f, funds(0, 5000));
    assert_eq!(
        unstake(&mut r, &mut f, &alice(), u64::MAX, T0 + YEAR),
        Err(StakingError::InsufficientStakedAmount)
    );
    assert_eq!(r, account(1000, 50, T0 + YEAR, 4));
}

#[test]
fn unstake_the_custodian_cannot_cover_is_refused() {
    let mut r = account(1000, 0, T0, 0);
    let mut f = funds(0, 399);
    assert_eq!(
        unstake(&mut r, &mut f, &alice(), 400, T0 + YEAR),
        Err(StakingError::InsufficientFunds)
    );
    assert_eq!(r, account(1000, 0, T0, 0));
    assert_eq!(f, funds(0, 399));
}

#[test]
fn unstake_past_the_caller_balance_is_overflow() {
    let mut r = account(1000, 0, T0, 0);
    let mut f = funds(u64::MAX, 1000);
    assert_eq!(unstake(&mut r, &mut f, &alice(), 1, T0), Err(StakingError::Overflow));
    assert_eq!(r, account(1000, 0, T0, 0));
    assert_eq!(f, funds(u64::MAX, 1000));
}

#[test]
fn claim_without_penalty_pays_everything() {
    let mut r = account(1000, 5, T0, 3);
    let mut f = funds(10, 100);
    assert_eq!(claim_reward(&mut r, &mut f, &alice(), false, T0 + YEAR), Ok(55));
    assert_eq!(r, account(1000, 0, T0 + YEAR, 0));
    assert_eq!(f, funds(65, 45));
}

#[test]
fn claim_with_penalty_pays_nine_tenths_rounded_down() {
    let mut r = account(1000, 5, T0, 3);
    let mut f = funds(10, 100);
    // 55 * 9 / 10 = 49.5
    assert_eq!(claim_reward(&mut r, &mut f, &alice(), true, T0 + YEAR), Ok(49));
    assert_eq!(r, account(1000, 0, T0 + YEAR, 0));
    assert_eq!(f, funds(59, 51));
}

#[test]
fn claim_with_penalty_on_small_rewards() {
    for (reward, payout) in [(0u64, 0u64), (1, 0), (2, 1), (9, 8), (10, 9), (11, 9), (100, 90)] {
        let mut r = account(0, reward, T0, 1);
        let mut f = funds(0, 1000);
        assert_eq!(claim_reward(&mut r, &mut f, &alice(), true, T0), Ok(payout));
        assert_eq!(r, account(0, 0, T0, 0));
        assert_eq!(f, funds(payout, 1000 - payout));
    }
}

#[test]
fn claim_with_penalty_on_the_largest_reward() {
    let mut r = account(0, u64::MAX, T0, 0);
    let mut f = funds(0, u64::MAX);
    assert_eq!(
        claim_reward(&mut r, &mut f, &alice(), true, T0),
        Ok(16_602_069_666_338_596_453)
    );
    assert_eq!(r.reward_amount, 0);
    assert_eq!(f, funds(16_602_069_666_338_596_453, 1_844_674_407_370_955_162));
}

#[test]
fn claim_the_custodian_cannot_cover_is_refused() {
    let mut r = account(1000, 5, T0, 3);
    let mut f = funds(10, 54);
    assert_eq!(
        claim_reward(&mut r, &mut f, &alice(), false, T0 + YEAR),
        Err(StakingError::InsufficientFunds)
    );
    assert_eq!(r, account(1000, 5, T0, 3));
    assert_eq!(f, funds(10, 54));
    assert_eq!(claim_reward(&mut r, &mut f, &alice(), true, T0 + YEAR), Ok(49));
    assert_eq!(f, funds(59, 5));
}

#[test]
fn claim_past_the_caller_balance_is_overflow() {
    let mut r = account(0, 5, T0, 3);
    let mut f = funds(u64::MAX - 4, 100);
    assert_eq!(
        claim_reward(&mut r, &mut f, &alice(), false, T0),
        Err(StakingError::Overflow)
    );
    assert_eq!(r, account(0, 5, T0, 3));
    assert_eq!(f, funds(u64::MAX - 4, 100));
}

#[test]
fn compound_turns_reward_into_stake() {
    let mut r = account(1000, 5, T0, 0);
    assert_eq!(compound(&mut r, &alice(), T0 + YEAR), Ok(()));
    assert_eq!(r, account(1055, 0, T0 + YEAR, 1));
    assert_eq!(compound(&mut r, &alice(), T0 + 2 * YEAR), Ok(()));
    // 1055 * 5 / 100 = 52.75
    assert_eq!(r, account(1107, 0, T0 + 2 * YEAR, 2));
}

#[test]
fn compound_conserves_stake_plus_reward() {
    for (staked, reward) in [(0u64, 0u64), (0, 17), (1000, 0), (123_456, 789), (u64::MAX - 9, 9)] {
        let mut r = account(staked, reward, T0, 0);
        assert_eq!(compound(&mut r, &alice(), T0), Ok(()));
        assert_eq!(r.reward_amount, 0);
        assert_eq!(r.staked_amount, staked + reward);
        assert_eq!(r.compound_streak, 1);
    }
}

#[test]
fn compound_past_the_field_is_overflow() {
    let mut r = account(u64::MAX - 9, 10, T0, 0);
    assert_eq!(compound(&mut r, &alice(), T0), Err(StakingError::Overflow));
    assert_eq!(r, account(u64::MAX - 9, 10, T0, 0));
}

#[test]
fn compound_streak_past_the_field_is_overflow() {
    let mut r = account(10, 10, T0, u64::MAX);
    assert_eq!(compound(&mut r, &alice(), T0 + YEAR), Err(StakingError::Overflow));
    assert_eq!(r, account(10, 10, T0, u64::MAX));
}

#[test]
fn streak_counts_compounds_since_the_last_claim() {
    let mut r = account(1000, 0, T0, 0);
    let mut f = funds(0, 1_000_000);
    for n in 1..=5u64 {
        assert_eq!(compound(&mut r, &alice(), T0 + (n as i64) * YEAR), Ok(()));
        assert_eq!(r.compound_streak, n);
    }
    assert_eq!(unstake(&mut r, &mut f, &alice(), 1, T0 + 5 * YEAR), Ok(()));
    assert_eq!(r.compound_streak, 5);
    assert_eq!(claim_reward(&mut r, &mut f, &alice(), false, T0 + 5 * YEAR), Ok(0));
    assert_eq!(r.compound_streak, 0);
    assert_eq!(compound(&mut r, &alice(), T0 + 6 * YEAR), Ok(()));
    assert_eq!(r.compound_streak, 1);
}

#[test]
fn stranger_changes_nothing() {
    let before = account(1000, 5, T0, 3);
    let mut r = before;
    let mut f = funds(500, 5000);
    assert_eq!(
        stake(&mut r, &mut f, &mallory(), 100, T0 + YEAR),
        Err(StakingError::Unauthorized)
    );
    assert_eq!(r, before);
    assert_eq!(f, funds(500, 5000));
    assert_eq!(
        unstake(&mut r, &mut f, &mallory(), 100, T0 + YEAR),
        Err(StakingError::Unauthorized)
    );
    assert_eq!(r, before);
    assert_eq!(f, funds(500, 5000));
    assert_eq!(
        claim_reward(&mut r, &mut f, &mallory(), false, T0 + YEAR),
        Err(StakingError::Unauthorized)
    );
    assert_eq!(r, before);
    assert_eq!(f, funds(500, 5000));
    assert_eq!(compound(&mut r, &mallory(), T0 + YEAR), Err(StakingError::Unauthorized));
    assert_eq!(r, before);
}

#[test]
fn stranger_is_refused_before_anything_else() {
    let before = account(1000, u64::MAX, T0, u64::MAX);
    let mut r = before;
    let mut f = funds(0, 0);
    assert_eq!(
        stake(&mut r, &mut f, &mallory(), 100, T0 + YEAR),
        Err(StakingError::Unauthorized)
    );
    assert_eq!(
        unstake(&mut r, &mut f, &mallory(), 5000, T0 + YEAR),
        Err(StakingError::Unauthorized)
    );
    assert_eq!(
        claim_reward(&mut r, &mut f, &mallory(), true, T0 + YEAR),
        Err(StakingError::Unauthorized)
    );
    assert_eq!(compound(&mut r, &mallory(), T0 + YEAR), Err(StakingError::Unauthorized));
    assert_eq!(r, before);
}

#[test]
fn balances_and_clock_never_go_back() {
    let mut r = initialize(alice(), T0);
    let mut f = funds(10_000, 1_000_000);
    let total = 1_010_000u64;
    let mut last = r.last_accrual_time;
    let times = [T0 + 5, T0 + YEAR, T0 + YEAR - 100, T0 + 3 * YEAR, T0, T0 + 4 * YEAR];
    for (step, now) in times.iter().enumerate() {
        let _ = match step % 4 {
            0 => stake(&mut r, &mut f, &alice(), 2500, *now),
            1 => compound(&mut r, &alice(), *now),
            2 => unstake(&mut r, &mut f, &alice(), 700, *now),
            _ => claim_reward(&mut r, &mut f, &alice(), true, *now).map(|_| ()),
        };
        assert!(r.last_accrual_time >= last);
        last = r.last_accrual_time;
        assert_eq!(r.owner, alice());
        assert_eq!(f.caller + f.custodian, total);
    }
    assert_eq!(last, T0 + 4 * YEAR);
}

#[test]
fn transfers_move_exactly_the_amount() {
    let mut f = funds(100, 7);
    assert_eq!(f.transfer_to_custodian(100), Ok(()));
    assert_eq!(f, funds(0, 107));
    assert_eq!(f.transfer_to_custodian(1), Err(StakingError::InsufficientFunds));
    assert_eq!(f, funds(0, 107));
    assert_eq!(f.transfer_to_caller(7), Ok(()));
    assert_eq!(f, funds(7, 100));
    assert_eq!(f.transfer_to_caller(101), Err(StakingError::InsufficientFunds));
    assert_eq!(f, funds(7, 100));
    let mut f = funds(1, u64::MAX);
    assert_eq!(f.transfer_to_custodian(1), Err(StakingError::Overflow));
    assert_eq!(f.transfer_to_custodian(0), Ok(()));
    assert_eq!(f, funds(1, u64::MAX));
    let mut f = funds(u64::MAX, 1);
    assert_eq!(f.transfer_to_caller(1), Err(StakingError::Overflow));
    assert_eq!(f, funds(u64::MAX, 1));
}
