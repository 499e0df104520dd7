use stableswap::error::StableSwapError;
use stableswap::pool::StablePool;
use stableswap::solver::calculate_d;
use stableswap::MINIMUM_LIQUIDITY;
use stableswap::MIN_INITIAL_DEPOSIT;

const ADMIN: u64 = 7;
const NOW: i64 = 1_000_000;

fn fresh_pool() -> StablePool {
    StablePool::initialize(ADMIN, 1000).unwrap()
}

fn funded_pool() -> StablePool {
    let mut p = fresh_pool();
    p.add_liquidity(0, 0, MIN_INITIAL_DEPOSIT, MIN_INITIAL_DEPOSIT, 0, NOW)
        .unwrap();
    p
}

#[test]
fn first_deposit_at_the_minimum_locks_the_minimum_liquidity() {
    let mut p = fresh_pool();
    let minted = p
        .add_liquidity(0, 0, MIN_INITIAL_DEPOSIT, MIN_INITIAL_DEPOSIT, 0, NOW)
        .unwrap();
    assert_eq!(minted, 2 * MIN_INITIAL_DEPOSIT - MINIMUM_LIQUIDITY);
    assert_eq!(p.lp_supply, 2 * MIN_INITIAL_DEPOSIT);
    assert_eq!(p.lp_supply - minted, MINIMUM_LIQUIDITY);
    assert_eq!(p.bags_balance, MIN_INITIAL_DEPOSIT);
    assert_eq!(p.pump_balance, MIN_INITIAL_DEPOSIT);
}

#[test]
fn first_deposit_one_unit_short_is_rejected() {
    let mut p = fresh_pool();
    assert_eq!(
        p.add_liquidity(0, 0, MIN_INITIAL_DEPOSIT - 1, MIN_INITIAL_DEPOSIT, 0, NOW)
            .err(),
        Some(StableSwapError::InitialDepositTooSmall)
    );
    assert_eq!(
        p.add_liquidity(0, 0, MIN_INITIAL_DEPOSIT, MIN_INITIAL_DEPOSIT - 1, 0, NOW)
            .err(),
        Some(StableSwapError::InitialDepositTooSmall)
    );
    assert_eq!(p.lp_supply, 0);
}

#[test]
fn deposits_are_refused_while_paused_and_with_zero_amounts() {
    let mut p = fresh_pool();
    assert_eq!(
        p.add_liquidity(0, 0, 0, 0, 0, NOW).err(),
        Some(StableSwapError::ZeroAmount)
    );
    p.set_paused(ADMIN, true).unwrap();
    assert_eq!(
        p.add_liquidity(0, 0, 1, 1, 0, NOW).err(),
        Some(StableSwapError::PoolPaused)
    );
}

#[test]
fn a_vault_shortfall_blocks_deposits_before_any_mutation() {
    let mut p = funded_pool();
    let before = p.clone();
    assert_eq!(
        p.add_liquidity(
            MIN_INITIAL_DEPOSIT - 1,
            MIN_INITIAL_DEPOSIT,
            1_000_000,
            1_000_000,
            0,
            NOW
        )
        .err(),
        Some(StableSwapError::VaultBalanceMismatch)
    );
    assert_eq!(
        p.add_liquidity(
            MIN_INITIAL_DEPOSIT,
            MIN_INITIAL_DEPOSIT - 1,
            1_000_000,
            1_000_000,
            0,
            NOW
        )
        .err(),
        Some(StableSwapError::VaultBalanceMismatch)
    );
    assert_eq!(p.lp_supply, before.lp_supply);
    assert_eq!(p.bags_balance, before.bags_balance);
    assert_eq!(p.pump_balance, before.pump_balance);
    assert_eq!(p.admin_fees_bags, before.admin_fees_bags);
}

#[test]
fn balanced_second_deposit_mints_proportionally_with_no_fee() {
    let mut p = funded_pool();
    let minted = p
        .add_liquidity(
            MIN_INITIAL_DEPOSIT,
            MIN_INITIAL_DEPOSIT,
            1_000_000,
            1_000_000,
            0,
            NOW,
        )
        .unwrap();
    assert_eq!(minted, 2_000_000);
    assert_eq!(p.lp_supply, 202_000_000);
    assert_eq!(p.bags_balance, 101_000_000);
    assert_eq!(p.pump_balance, 101_000_000);
    assert_eq!(p.admin_fees_bags, 0);
    assert_eq!(p.admin_fees_pump, 0);
}

#[test]
fn deposit_slippage_floor_is_enforced() {
    let mut p = funded_pool();
    assert_eq!(
        p.add_liquidity(
            MIN_INITIAL_DEPOSIT,
            MIN_INITIAL_DEPOSIT,
            1_000_000,
            1_000_000,
            2_000_001,
            NOW
        )
        .err(),
        Some(StableSwapError::SlippageExceeded)
    );
}

#[test]
fn deposit_into_a_drained_pool_violates_the_invariant() {
    let mut p = fresh_pool();
    p.lp_supply = 5000;
    assert_eq!(
        p.add_liquidity(0, 0, 1_000_000, 0, 0, NOW).err(),
        Some(StableSwapError::InvariantViolation)
    );
}

#[test]
fn invariant_never_shrinks_on_a_successful_deposit() {
    let mut p = funded_pool();
    let d_before = calculate_d(p.bags_balance, p.pump_balance, 1000).unwrap();
    p.add_liquidity(
        MIN_INITIAL_DEPOSIT,
        MIN_INITIAL_DEPOSIT,
        3_000_000,
        500_000,
        0,
        NOW,
    )
    .unwrap();
    let d_after = calculate_d(p.bags_balance, p.pump_balance, 1000).unwrap();
    assert!(d_after > d_before);
}


#[test]
fn lopsided_deposit_pays_an_imbalance_fee() {
    let mut p = funded_pool();
    let minted = p
        .add_liquidity(
            MIN_INITIAL_DEPOSIT,
            MIN_INITIAL_DEPOSIT,
            3_000_000,
            500_000,
            0,
            NOW,
        )
        .unwrap();
    // D grows from 200_000_000 to 203_499_984; each side sits 1_250_008 and
    // 1_249_992 away from its ideal balance, paying 4 bps on the distance
    assert_eq!(minted, 3_499_984);
    assert_eq!(p.lp_supply, 203_499_984);
    assert_eq!(p.bags_balance, 103_000_000);
    assert_eq!(p.pump_balance, 100_500_000);
    assert_eq!(p.admin_fees_bags, 250);
    assert_eq!(p.admin_fees_pump, 249);
}

#[test]
fn deposit_imbalance_fee_follows_the_pool_fee_rate() {
    let mut p = funded_pool();
    p.update_swap_fee(ADMIN, 100).unwrap();
    let minted = p
        .add_liquidity(
            MIN_INITIAL_DEPOSIT,
            MIN_INITIAL_DEPOSIT,
            3_000_000,
            500_000,
            0,
            NOW,
        )
        .unwrap();
    // same distances from the ideal balances as at the default rate, but
    // charged at 100 bps now: the admin's half is 6_250 and 6_249
    assert_eq!(minted, 3_499_984);
    assert_eq!(p.admin_fees_bags, 6_250);
    assert_eq!(p.admin_fees_pump, 6_249);
}

#[test]
fn exit_fee_scales_with_the_pool_imbalance() {
    let mut p = fresh_pool();
    p.lp_supply = 200_000_000;
    p.bags_balance = 150_000_000;
    p.pump_balance = 50_000_000;
    // three quarters of the value on one side: half the swap fee applies
    let (bags_out, pump_out) = p.remove_liquidity(2_000_000, 0, 0).unwrap();
    assert_eq!(bags_out, 1_499_700);
    assert_eq!(pump_out, 499_900);
    assert_eq!(p.lp_supply, 198_000_000);
    assert_eq!(p.bags_balance, 148_500_000);
    assert_eq!(p.pump_balance, 49_500_000);
    assert_eq!(p.admin_fees_bags, 150);
    assert_eq!(p.admin_fees_pump, 50);
}

#[test]
fn withdrawal_pays_proportional_amounts() {
    let mut p = funded_pool();
    p.add_liquidity(
        MIN_INITIAL_DEPOSIT,
        MIN_INITIAL_DEPOSIT,
        1_000_000,
        1_000_000,
        0,
        NOW,
    )
    .unwrap();
    let (bags_out, pump_out) = p.remove_liquidity(1_000_000, 0, 0).unwrap();
    assert_eq!(bags_out, 500_000);
    assert_eq!(pump_out, 500_000);
    assert_eq!(p.lp_supply, 201_000_000);
    assert_eq!(p.bags_balance, 100_500_000);
    assert_eq!(p.pump_balance, 100_500_000);
}

#[test]
fn withdrawal_is_never_paused() {
    let mut p = funded_pool();
    p.set_paused(ADMIN, true).unwrap();
    assert!(p.remove_liquidity(1_000_000, 0, 0).is_ok());
}

#[test]
fn withdrawal_guards_the_locked_minimum_and_its_own_minimums() {
    let mut p = funded_pool();
    assert_eq!(
        p.remove_liquidity(0, 0, 0).err(),
        Some(StableSwapError::ZeroAmount)
    );
    assert_eq!(
        p.remove_liquidity(p.lp_supply, 0, 0).err(),
        Some(StableSwapError::InsufficientLiquidity)
    );
    assert_eq!(
        p.remove_liquidity(p.lp_supply - MINIMUM_LIQUIDITY + 1, 0, 0).err(),
        Some(StableSwapError::InsufficientLiquidity)
    );
    assert_eq!(
        p.remove_liquidity(1_000_000, 500_001, 0).err(),
        Some(StableSwapError::SlippageExceeded)
    );
}

#[test]
fn withdrawing_and_redepositing_never_mints_more_than_was_burned() {
    let mut p = funded_pool();
    p.add_liquidity(
        MIN_INITIAL_DEPOSIT,
        MIN_INITIAL_DEPOSIT,
        1_000_000,
        1_000_000,
        0,
        NOW,
    )
    .unwrap();
    let burned: u64 = 1_000_000;
    let (bags_out, pump_out) = p.remove_liquidity(burned, 0, 0).unwrap();
    let va = p.bags_balance;
    let vb = p.pump_balance;
    let reminted = p.add_liquidity(va, vb, bags_out, pump_out, 0, NOW).unwrap();
    assert!(reminted <= burned);
    assert_eq!(reminted, 1_000_000);
}

#[test]
fn single_sided_first_deposit_locks_the_minimum() {
    let mut p = fresh_pool();
    let minted = p
        .add_liquidity_single_sided(MIN_INITIAL_DEPOSIT, true, 0)
        .unwrap();
    assert_eq!(minted, MIN_INITIAL_DEPOSIT - MINIMUM_LIQUIDITY);
    assert_eq!(p.bags_balance, MIN_INITIAL_DEPOSIT);
    assert_eq!(p.pump_balance, 0);
    assert_eq!(p.lp_supply, MIN_INITIAL_DEPOSIT);
    assert_eq!(p.lp_supply - minted, MINIMUM_LIQUIDITY);
}

#[test]
fn single_sided_deposit_is_priced_by_total_pool_value() {
    let mut p = fresh_pool();
    p.add_liquidity_single_sided(100_000_000, true, 0).unwrap();
    // the caller's own minimum must sit inside the slippage band
    assert_eq!(
        p.add_liquidity_single_sided(1_000_000, true, 0).err(),
        Some(StableSwapError::SlippageTooHigh)
    );
    let minted = p
        .add_liquidity_single_sided(1_000_000, true, 950_000)
        .unwrap();
    assert_eq!(minted, 1_000_000);
    assert_eq!(p.bags_balance, 101_000_000);
    assert_eq!(p.lp_supply, 101_000_000);
}

#[test]
fn single_sided_deposit_works_on_either_side() {
    let mut p = fresh_pool();
    p.add_liquidity_single_sided(100_000_000, true, 0).unwrap();
    let minted = p
        .add_liquidity_single_sided(1_000_000, false, 950_000)
        .unwrap();
    assert_eq!(minted, 1_000_000);
    assert_eq!(p.pump_balance, 1_000_000);
    assert_eq!(p.bags_balance, 100_000_000);
}

#[test]
fn single_sided_deposit_rejects_dust_and_drained_pools() {
    let mut p = fresh_pool();
    assert_eq!(
        p.add_liquidity_single_sided(0, true, 0).err(),
        Some(StableSwapError::ZeroAmount)
    );
    assert_eq!(
        p.add_liquidity_single_sided(99_999, true, 0).err(),
        Some(StableSwapError::AmountTooSmall)
    );
    assert_eq!(
        p.add_liquidity_single_sided(100_000_000 - 1, true, 0).err(),
        Some(StableSwapError::InitialDepositTooSmall)
    );
    p.lp_supply = 5000;
    assert_eq!(
        p.add_liquidity_single_sided(1_000_000, true, 0).err(),
        Some(StableSwapError::InsufficientLiquidity)
    );
}
