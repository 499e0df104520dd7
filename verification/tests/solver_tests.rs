use stableswap::error::StableSwapError;
use stableswap::solver::calculate_d;
use stableswap::solver::calculate_swap_output;
use stableswap::solver::calculate_y;

#[test]
fn d_is_zero_when_a_balance_is_zero() {
    assert_eq!(calculate_d(0, 0, 1000), Ok(0));
    assert_eq!(calculate_d(0, 5_000_000, 1000), Ok(0));
    assert_eq!(calculate_d(5_000_000, 0, 1000), Ok(0));
}

#[test]
fn d_equal_balances_converges_to_twice_the_balance() {
    assert_eq!(calculate_d(100_000_000, 100_000_000, 1000), Ok(200_000_000));
    assert_eq!(calculate_d(1_000_000, 1_000_000, 1), Ok(2_000_000));
    assert_eq!(calculate_d(7, 7, 10000), Ok(14));
}

#[test]
fn d_unequal_balances_exact_value() {
    assert_eq!(calculate_d(1_000_000, 3_000_000, 100), Ok(3_993_431));
}

#[test]
fn d_overflows_on_extreme_balances() {
    assert_eq!(
        calculate_d(u64::MAX, u64::MAX, 10000),
        Err(StableSwapError::MathOverflow)
    );
}

#[test]
fn y_is_zero_on_degenerate_inputs() {
    assert_eq!(calculate_y(0, 1_000_000, 1000), Ok(0));
    assert_eq!(calculate_y(1_000_000, 0, 1000), Ok(0));
}

#[test]
fn y_overflows_when_amplification_is_zero() {
    assert_eq!(
        calculate_y(1_000_000, 2_000_000, 0),
        Err(StableSwapError::MathOverflow)
    );
}

#[test]
fn swap_output_exact_value() {
    assert_eq!(
        calculate_swap_output(100_000_000, 100_000_000, 1_000_000, 1000, true),
        Ok(999_991)
    );
}

#[test]
fn swap_output_is_monotone_in_amount_in() {
    let mut last = 0u64;
    for amount_in in [1_000_000u64, 2_000_000, 5_000_000, 10_000_000] {
        let out = calculate_swap_output(100_000_000, 100_000_000, amount_in, 1000, true).unwrap();
        assert!(out >= last);
        last = out;
    }
}
