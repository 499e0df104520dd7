use stableswap::error::StableSwapError;
use stableswap::pool::StablePool;
use stableswap::MIN_INITIAL_DEPOSIT;

const ADMIN: u64 = 7;
const NOW: i64 = 1_000_000;
const DEADLINE: i64 = 2_000_000;

fn funded_pool() -> StablePool {
    let mut p = StablePool::initialize(ADMIN, 1000).unwrap();
    p.add_liquidity(0, 0, MIN_INITIAL_DEPOSIT, MIN_INITIAL_DEPOSIT, 0, NOW)
        .unwrap();
    p
}

#[test]
fn swap_exact_output_and_balance_updates() {
    let mut p = funded_pool();
    let out = p
        .swap_bags_to_pump(100_000_000, 100_000_000, 1_000_000, 950_000, DEADLINE, NOW)
        .unwrap();
    // gross output 999_991, fee 399, net 999_592, admin share 199
    assert_eq!(out, 999_592);
    assert_eq!(p.bags_balance, 101_000_000);
    assert_eq!(p.pump_balance, 100_000_000 - 999_991);
    assert_eq!(p.admin_fees_pump, 199);
    assert_eq!(p.total_volume_bags, 1_000_000);
}

#[test]
fn swap_in_the_other_direction_mirrors() {
    let mut p = funded_pool();
    let out = p
        .swap_pump_to_bags(100_000_000, 100_000_000, 1_000_000, 950_000, DEADLINE, NOW)
        .unwrap();
    assert_eq!(out, 999_592);
    assert_eq!(p.pump_balance, 101_000_000);
    assert_eq!(p.bags_balance, 100_000_000 - 999_991);
    assert_eq!(p.admin_fees_bags, 199);
    assert_eq!(p.total_volume_pump, 1_000_000);
}

#[test]
fn swap_guards_run_before_any_mutation() {
    let mut p = funded_pool();
    let before = p.clone();
    assert_eq!(
        p.swap_bags_to_pump(100_000_000, 100_000_000, 99_999, 95_000, DEADLINE, NOW)
            .err(),
        Some(StableSwapError::AmountTooSmall)
    );
    // a naive zero minimum is refused outright
    assert_eq!(
        p.swap_bags_to_pump(100_000_000, 100_000_000, 1_000_000, 0, DEADLINE, NOW)
            .err(),
        Some(StableSwapError::SlippageTooHigh)
    );
    assert_eq!(
        p.swap_bags_to_pump(100_000_000, 100_000_000, 1_000_000, 950_000, DEADLINE, DEADLINE + 1)
            .err(),
        Some(StableSwapError::TransactionExpired)
    );
    assert_eq!(
        p.swap_bags_to_pump(99_999_999, 100_000_000, 1_000_000, 950_000, DEADLINE, NOW)
            .err(),
        Some(StableSwapError::VaultBalanceMismatch)
    );
    assert_eq!(
        p.swap_bags_to_pump(100_000_000, 99_999_999, 1_000_000, 950_000, DEADLINE, NOW)
            .err(),
        Some(StableSwapError::VaultBalanceMismatch)
    );
    p.set_paused(ADMIN, true).unwrap();
    assert_eq!(
        p.swap_bags_to_pump(100_000_000, 100_000_000, 1_000_000, 950_000, DEADLINE, NOW)
            .err(),
        Some(StableSwapError::PoolPaused)
    );
    p.set_paused(ADMIN, false).unwrap();
    assert_eq!(p.bags_balance, before.bags_balance);
    assert_eq!(p.pump_balance, before.pump_balance);
    assert_eq!(p.admin_fees_pump, before.admin_fees_pump);
    assert_eq!(p.total_volume_bags, before.total_volume_bags);
}

#[test]
fn swap_requires_a_reachable_minimum() {
    let mut p = funded_pool();
    assert_eq!(
        p.swap_bags_to_pump(100_000_000, 100_000_000, 1_000_000, 999_593, DEADLINE, NOW)
            .err(),
        Some(StableSwapError::SlippageExceeded)
    );
}

#[test]
fn migration_fee_is_exactly_the_flat_rate() {
    let mut p = funded_pool();
    let out = p
        .migrate_bags_to_pump(100_000_000, 100_000_000, 1_000_000, 950_000, DEADLINE, NOW)
        .unwrap();
    // fee = 1_000_000 * 1337 / 1_000_000 = 1337
    assert_eq!(out, 998_663);
    assert_eq!(p.bags_balance, 101_000_000);
    assert_eq!(p.pump_balance, 100_000_000 - 998_663);
    assert_eq!(p.admin_fees_pump, 668);
    assert_eq!(p.total_volume_bags, 1_000_000);
}

#[test]
fn migration_mirrors_in_the_other_direction() {
    let mut p = funded_pool();
    let out = p
        .migrate_pump_to_bags(100_000_000, 100_000_000, 1_000_000, 950_000, DEADLINE, NOW)
        .unwrap();
    assert_eq!(out, 998_663);
    assert_eq!(p.pump_balance, 101_000_000);
    assert_eq!(p.bags_balance, 100_000_000 - 998_663);
    assert_eq!(p.admin_fees_bags, 668);
}

#[test]
fn migration_needs_enough_output_side_liquidity() {
    let mut p = funded_pool();
    p.pump_balance = 500_000;
    assert_eq!(
        p.migrate_bags_to_pump(100_000_000, 500_000, 1_000_000, 950_000, DEADLINE, NOW)
            .err(),
        Some(StableSwapError::InsufficientLiquidity)
    );
}

#[test]
fn migration_guards_match_the_swap_guards() {
    let mut p = funded_pool();
    assert_eq!(
        p.migrate_bags_to_pump(100_000_000, 100_000_000, 99_999, 95_000, DEADLINE, NOW)
            .err(),
        Some(StableSwapError::AmountTooSmall)
    );
    assert_eq!(
        p.migrate_bags_to_pump(100_000_000, 100_000_000, 1_000_000, 0, DEADLINE, NOW)
            .err(),
        Some(StableSwapError::SlippageTooHigh)
    );
    assert_eq!(
        p.migrate_bags_to_pump(100_000_000, 100_000_000, 1_000_000, 950_000, DEADLINE, DEADLINE + 1)
            .err(),
        Some(StableSwapError::TransactionExpired)
    );
    assert_eq!(
        p.migrate_bags_to_pump(99_999_999, 100_000_000, 1_000_000, 950_000, DEADLINE, NOW)
            .err(),
        Some(StableSwapError::VaultBalanceMismatch)
    );
}
