use stableswap::error::StableSwapError;
use stableswap::farming::calculate_pending_rewards;
use stableswap::farming::claim_farming_rewards;
use stableswap::farming::create_farming_period;
use stableswap::farming::stake_lp;
use stableswap::farming::unstake_lp;
use stableswap::farming::update_farming_rewards;
use stableswap::farming::FarmingPeriod;
use stableswap::farming::UserFarmingPosition;
use stableswap::pool::StablePool;

const ADMIN: u64 = 7;
const STAKER: u64 = 42;
const START: i64 = 1_000;
const DAY: i64 = 86_400;

fn fresh_position() -> UserFarmingPosition {
    UserFarmingPosition { owner: 0, lp_staked: 0, reward_debt: 0, pending_rewards: 0 }
}

fn ten_per_second_period() -> FarmingPeriod {
    let p = StablePool::initialize(ADMIN, 1000).unwrap();
    // 864_000 rewards over one day: ten per second
    create_farming_period(&p, ADMIN, START, START + DAY, 864_000, 0).unwrap()
}

#[test]
fn period_creation_checks_its_window() {
    let p = StablePool::initialize(ADMIN, 1000).unwrap();
    assert_eq!(
        create_farming_period(&p, 1, START, START + DAY, 864_000, 0).err(),
        Some(StableSwapError::Unauthorized)
    );
    assert_eq!(
        create_farming_period(&p, ADMIN, START, START + DAY, 864_000, START + 1).err(),
        Some(StableSwapError::InvalidFarmingPeriod)
    );
    assert_eq!(
        create_farming_period(&p, ADMIN, START, START, 864_000, 0).err(),
        Some(StableSwapError::InvalidFarmingPeriod)
    );
    assert_eq!(
        create_farming_period(&p, ADMIN, START, START + DAY - 1, 864_000, 0).err(),
        Some(StableSwapError::FarmingPeriodTooShort)
    );
    assert_eq!(
        create_farming_period(&p, ADMIN, START, START + DAY, 0, 0).err(),
        Some(StableSwapError::ZeroAmount)
    );
    // fewer rewards than seconds: the per-second rate would be zero
    assert_eq!(
        create_farming_period(&p, ADMIN, START, START + DAY, 86_399, 0).err(),
        Some(StableSwapError::ZeroAmount)
    );
    let f = create_farming_period(&p, ADMIN, START, START + DAY, 864_000, 0).unwrap();
    assert_eq!(f.reward_per_second, 10);
    assert_eq!(f.last_update_time, START);
    assert_eq!(f.total_staked, 0);
}

#[test]
fn a_single_staker_accrues_the_whole_rate() {
    let mut f = ten_per_second_period();
    let mut pos = fresh_position();
    stake_lp(&mut f, &mut pos, STAKER, 100, START).unwrap();
    assert_eq!(f.total_staked, 100);
    assert_eq!(pos.owner, STAKER);
    assert_eq!(pos.lp_staked, 100);
    // 1000 seconds at 10 per second: exactly 10_000 reward units
    let paid = claim_farming_rewards(&mut f, &mut pos, START + 1_000).unwrap();
    assert_eq!(paid, 10_000);
    assert_eq!(f.distributed_rewards, 10_000);
    assert_eq!(pos.pending_rewards, 0);
    // nothing further accrues at the same instant
    assert_eq!(
        claim_farming_rewards(&mut f, &mut pos, START + 1_000).err(),
        Some(StableSwapError::NoRewardsToClaim)
    );
}

#[test]
fn staking_is_bounded_by_the_window() {
    let mut f = ten_per_second_period();
    let mut pos = fresh_position();
    assert_eq!(
        stake_lp(&mut f, &mut pos, STAKER, 0, START).err(),
        Some(StableSwapError::ZeroAmount)
    );
    assert_eq!(
        stake_lp(&mut f, &mut pos, STAKER, 100, START - 1).err(),
        Some(StableSwapError::FarmingNotStarted)
    );
    assert_eq!(
        stake_lp(&mut f, &mut pos, STAKER, 100, START + DAY).err(),
        Some(StableSwapError::FarmingEnded)
    );
}

#[test]
fn restaking_banks_the_rewards_earned_so_far() {
    let mut f = ten_per_second_period();
    let mut pos = fresh_position();
    stake_lp(&mut f, &mut pos, STAKER, 100, START).unwrap();
    stake_lp(&mut f, &mut pos, STAKER, 300, START + 500).unwrap();
    // the first 500 seconds accrued to the original stake alone
    assert_eq!(pos.pending_rewards, 5_000);
    assert_eq!(pos.lp_staked, 400);
    assert_eq!(f.total_staked, 400);
}

#[test]
fn unstaking_keeps_the_entitlement_and_returns_the_stake() {
    let mut f = ten_per_second_period();
    let mut pos = fresh_position();
    stake_lp(&mut f, &mut pos, STAKER, 100, START).unwrap();
    assert_eq!(
        unstake_lp(&mut f, &mut pos, 101, START + 100).err(),
        Some(StableSwapError::InsufficientStake)
    );
    unstake_lp(&mut f, &mut pos, 40, START + 1_000).unwrap();
    assert_eq!(pos.lp_staked, 60);
    assert_eq!(f.total_staked, 60);
    assert_eq!(pos.pending_rewards, 10_000);
    let paid = claim_farming_rewards(&mut f, &mut pos, START + 1_000).unwrap();
    assert_eq!(paid, 10_000);
}

#[test]
fn accrual_stops_at_the_window_end() {
    let mut f = ten_per_second_period();
    let mut pos = fresh_position();
    stake_lp(&mut f, &mut pos, STAKER, 100, START).unwrap();
    // far past the end: only the window's seconds count
    let paid = claim_farming_rewards(&mut f, &mut pos, START + DAY + 50_000).unwrap();
    assert_eq!(paid, 864_000);
}

#[test]
fn the_clock_advances_without_stakers_but_accrues_nothing() {
    let mut f = ten_per_second_period();
    update_farming_rewards(&mut f, START + 500).unwrap();
    assert_eq!(f.last_update_time, START + 500);
    assert_eq!(f.acc_reward_per_share, 0);
    // and before the window opens nothing at all happens
    let mut g = ten_per_second_period();
    update_farming_rewards(&mut g, START - 1).unwrap();
    assert_eq!(g.last_update_time, START);
}

#[test]
fn pending_rewards_reflect_the_accumulator() {
    let mut f = ten_per_second_period();
    let mut pos = fresh_position();
    stake_lp(&mut f, &mut pos, STAKER, 100, START).unwrap();
    update_farming_rewards(&mut f, START + 1_000).unwrap();
    assert_eq!(calculate_pending_rewards(&pos, &f), Ok(10_000));
}
