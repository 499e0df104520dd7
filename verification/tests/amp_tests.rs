use stableswap::amp::get_current_amplification;
use stableswap::pool::StablePool;

fn ramping_pool(initial: u64, target: u64, start: i64, stop: i64) -> StablePool {
    let mut p = StablePool::initialize(7, initial).unwrap();
    p.initial_amplification = initial;
    p.target_amplification = target;
    p.amplification = initial;
    p.ramp_start_time = start;
    p.ramp_stop_time = stop;
    p
}

#[test]
fn ramp_midpoint_is_the_linear_interpolation() {
    let t: i64 = 1_000_000;
    let p = ramping_pool(1000, 2000, t, t + 100_000);
    assert_eq!(get_current_amplification(&p, t + 50_000), 1500);
}

#[test]
fn ramp_quarter_points() {
    let t: i64 = 1_000_000;
    let p = ramping_pool(1000, 2000, t, t + 100_000);
    assert_eq!(get_current_amplification(&p, t + 25_000), 1250);
    assert_eq!(get_current_amplification(&p, t + 75_000), 1750);
}

#[test]
fn ramp_downwards_interpolates_too() {
    let t: i64 = 1_000_000;
    let p = ramping_pool(2000, 1000, t, t + 100_000);
    assert_eq!(get_current_amplification(&p, t + 50_000), 1500);
}

#[test]
fn before_the_window_the_initial_value_holds() {
    let t: i64 = 1_000_000;
    let mut p = ramping_pool(1000, 2000, t, t + 100_000);
    p.amplification = 900;
    assert_eq!(get_current_amplification(&p, t - 1), 1000);
    assert_eq!(get_current_amplification(&p, t), 1000);
}

#[test]
fn after_the_window_the_target_holds() {
    let t: i64 = 1_000_000;
    let p = ramping_pool(1000, 2000, t, t + 100_000);
    assert_eq!(get_current_amplification(&p, t + 100_000), 2000);
    assert_eq!(get_current_amplification(&p, t + 200_000), 2000);
}

#[test]
fn without_a_ramp_the_target_value_holds() {
    let p = StablePool::initialize(7, 1000).unwrap();
    assert_eq!(get_current_amplification(&p, 0), 1000);
    assert_eq!(get_current_amplification(&p, i64::MAX), 1000);
}

#[test]
fn a_finished_downward_ramp_stays_at_the_target() {
    let t: i64 = 1_000_000;
    let p = ramping_pool(1000, 500, t, t + 100_000);
    assert_eq!(get_current_amplification(&p, t + 50_000), 750);
    assert_eq!(get_current_amplification(&p, t + 100_000), 500);
    assert_eq!(get_current_amplification(&p, t + 10_000_000), 500);
}
