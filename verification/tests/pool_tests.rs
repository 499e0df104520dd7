use stableswap::error::StableSwapError;
use stableswap::hashing::amp_commit_hash;
use stableswap::pool::StablePool;
use stableswap::AMP_COMMIT_DELAY;
use stableswap::AUTHORITY_TIMELOCK;
use stableswap::MIN_RAMP_DURATION;

const ADMIN: u64 = 7;

#[test]
fn create_pool_rejects_an_out_of_range_amplification() {
    assert_eq!(
        StablePool::create_pool(ADMIN, 0).err(),
        Some(StableSwapError::InvalidAmplification)
    );
    assert_eq!(
        StablePool::create_pool(ADMIN, 10_001).err(),
        Some(StableSwapError::InvalidAmplification)
    );
}

#[test]
fn create_pool_starts_paused_until_vaults_exist() {
    let mut p = StablePool::create_pool(ADMIN, 1000).unwrap();
    assert!(p.paused);
    assert!(!p.vaults_initialized);
    assert_eq!(
        p.init_vaults(99).err(),
        Some(StableSwapError::Unauthorized)
    );
    assert_eq!(p.init_vaults(ADMIN), Ok(()));
    assert!(!p.paused);
    assert!(p.vaults_initialized);
    assert_eq!(
        p.init_vaults(ADMIN).err(),
        Some(StableSwapError::AlreadyInitialized)
    );
}

#[test]
fn initialize_is_the_combined_setup() {
    let p = StablePool::initialize(ADMIN, 1000).unwrap();
    assert!(!p.paused);
    assert!(p.vaults_initialized);
    assert_eq!(p.amplification, 1000);
    assert_eq!(p.swap_fee_bps, 4);
    assert_eq!(p.admin_fee_percent, 50);
    assert_eq!(p.lp_supply, 0);
}

#[test]
fn update_swap_fee_caps_at_one_percent() {
    let mut p = StablePool::initialize(ADMIN, 1000).unwrap();
    assert_eq!(
        p.update_swap_fee(1, 10).err(),
        Some(StableSwapError::Unauthorized)
    );
    assert_eq!(
        p.update_swap_fee(ADMIN, 101).err(),
        Some(StableSwapError::FeeTooHigh)
    );
    assert_eq!(p.update_swap_fee(ADMIN, 100), Ok(()));
    assert_eq!(p.swap_fee_bps, 100);
}

#[test]
fn set_paused_is_admin_only() {
    let mut p = StablePool::initialize(ADMIN, 1000).unwrap();
    assert_eq!(
        p.set_paused(1, true).err(),
        Some(StableSwapError::Unauthorized)
    );
    assert_eq!(p.set_paused(ADMIN, true), Ok(()));
    assert!(p.paused);
    assert_eq!(p.set_paused(ADMIN, false), Ok(()));
    assert!(!p.paused);
}

#[test]
fn authority_transfer_needs_the_timelock() {
    let new_admin: u64 = 9;
    let t0: i64 = 1_000_000;
    let mut p = StablePool::initialize(ADMIN, 1000).unwrap();
    assert_eq!(
        p.initiate_authority_transfer(ADMIN, 0, t0).err(),
        Some(StableSwapError::InvalidAuthority)
    );
    assert_eq!(p.initiate_authority_transfer(ADMIN, new_admin, t0), Ok(()));
    assert_eq!(
        p.complete_authority_transfer(3, t0 + AUTHORITY_TIMELOCK).err(),
        Some(StableSwapError::Unauthorized)
    );
    assert_eq!(
        p.complete_authority_transfer(new_admin, t0 + AUTHORITY_TIMELOCK - 1).err(),
        Some(StableSwapError::TimelockNotExpired)
    );
    assert_eq!(
        p.complete_authority_transfer(new_admin, t0 + AUTHORITY_TIMELOCK),
        Ok(())
    );
    assert_eq!(p.authority, new_admin);
    assert_eq!(p.pending_authority, None);
}

#[test]
fn cancel_authority_transfer_clears_the_proposal() {
    let t0: i64 = 1_000_000;
    let mut p = StablePool::initialize(ADMIN, 1000).unwrap();
    assert_eq!(
        p.cancel_authority_transfer(ADMIN).err(),
        Some(StableSwapError::NoTransferPending)
    );
    assert_eq!(p.initiate_authority_transfer(ADMIN, 9, t0), Ok(()));
    assert_eq!(p.cancel_authority_transfer(ADMIN), Ok(()));
    assert_eq!(p.pending_authority, None);
    assert_eq!(
        p.complete_authority_transfer(9, t0 + AUTHORITY_TIMELOCK).err(),
        Some(StableSwapError::NoTransferPending)
    );
}

#[test]
fn ramp_needs_a_prior_commitment() {
    let t0: i64 = 1_000_000;
    let mut p = StablePool::initialize(ADMIN, 1000).unwrap();
    let salt = [5u8; 32];
    assert_eq!(
        p.ramp_amplification(ADMIN, 2000, MIN_RAMP_DURATION, salt, t0).err(),
        Some(StableSwapError::NoAmpCommitPending)
    );
}

#[test]
fn commit_reveal_ramp_round_trip() {
    let t0: i64 = 1_000_000;
    let target: u64 = 2000;
    let duration: i64 = MIN_RAMP_DURATION;
    let salt = [5u8; 32];
    let mut p = StablePool::initialize(ADMIN, 1000).unwrap();
    let hash = amp_commit_hash(target, duration, &salt);
    assert_eq!(
        p.commit_amp_ramp(1, hash, t0).err(),
        Some(StableSwapError::Unauthorized)
    );
    assert_eq!(p.commit_amp_ramp(ADMIN, hash, t0), Ok(()));
    assert_eq!(
        p.ramp_amplification(ADMIN, target, duration, salt, t0 + AMP_COMMIT_DELAY - 1).err(),
        Some(StableSwapError::AmpCommitDelayNotPassed)
    );
    let reveal_at = t0 + AMP_COMMIT_DELAY;
    assert_eq!(
        p.ramp_amplification(ADMIN, target, duration, [6u8; 32], reveal_at).err(),
        Some(StableSwapError::AmpCommitMismatch)
    );
    assert_eq!(
        p.ramp_amplification(ADMIN, 2001, duration, salt, reveal_at).err(),
        Some(StableSwapError::AmpCommitMismatch)
    );
    assert_eq!(
        p.ramp_amplification(ADMIN, target, duration, salt, reveal_at),
        Ok(())
    );
    assert_eq!(p.amplification, 1000);
    assert_eq!(p.initial_amplification, 1000);
    assert_eq!(p.target_amplification, target);
    assert_eq!(p.ramp_start_time, reveal_at);
    assert_eq!(p.ramp_stop_time, reveal_at + duration);
    assert_eq!(p.pending_amp_commit, None);
}

#[test]
fn ramp_rejects_a_short_duration_and_a_big_jump() {
    let t0: i64 = 1_000_000;
    let salt = [5u8; 32];
    let mut p = StablePool::initialize(ADMIN, 1000).unwrap();
    let hash = amp_commit_hash(2000, MIN_RAMP_DURATION - 1, &salt);
    assert_eq!(p.commit_amp_ramp(ADMIN, hash, t0), Ok(()));
    assert_eq!(
        p.ramp_amplification(ADMIN, 2000, MIN_RAMP_DURATION - 1, salt, t0 + AMP_COMMIT_DELAY)
            .err(),
        Some(StableSwapError::RampTooFast)
    );
    let hash2 = amp_commit_hash(10, MIN_RAMP_DURATION, &salt);
    assert_eq!(p.commit_amp_ramp(ADMIN, hash2, t0), Ok(()));
    assert_eq!(
        p.ramp_amplification(ADMIN, 10, MIN_RAMP_DURATION, salt, t0 + AMP_COMMIT_DELAY).err(),
        Some(StableSwapError::AmpChangeTooLarge)
    );
}

#[test]
fn stop_ramp_freezes_the_current_value() {
    let t0: i64 = 1_000_000;
    let mut p = StablePool::initialize(ADMIN, 1000).unwrap();
    p.initial_amplification = 1000;
    p.target_amplification = 2000;
    p.ramp_start_time = t0;
    p.ramp_stop_time = t0 + 100_000;
    assert_eq!(p.stop_ramp_amplification(ADMIN, t0 + 50_000), Ok(()));
    assert_eq!(p.amplification, 1500);
    assert_eq!(p.initial_amplification, 1500);
    assert_eq!(p.target_amplification, 1500);
    assert_eq!(p.ramp_stop_time, 0);
}

#[test]
fn admin_fees_are_capped_by_surplus_holdings() {
    let mut p = StablePool::initialize(ADMIN, 1000).unwrap();
    assert_eq!(
        p.withdraw_admin_fees(ADMIN, 0, 0).err(),
        Some(StableSwapError::NoFeesToWithdraw)
    );
    p.bags_balance = 1_000_000;
    p.pump_balance = 1_000_000;
    p.admin_fees_bags = 100;
    p.admin_fees_pump = 0;
    assert_eq!(
        p.withdraw_admin_fees(1, 1_000_130, 1_000_000).err(),
        Some(StableSwapError::Unauthorized)
    );
    assert_eq!(
        p.withdraw_admin_fees(ADMIN, 99, 1_000_000).err(),
        Some(StableSwapError::InsufficientLiquidity)
    );
    // only 30 units sit above the tracked balance, so only 30 can leave
    assert_eq!(p.withdraw_admin_fees(ADMIN, 1_000_030, 1_000_000), Ok((30, 0)));
    assert_eq!(p.admin_fees_bags, 70);
    // no surplus at all: nothing can be withdrawn
    assert_eq!(
        p.withdraw_admin_fees(ADMIN, 1_000_000, 1_000_000).err(),
        Some(StableSwapError::NoFeesToWithdraw)
    );
    assert_eq!(p.admin_fees_bags, 70);
}
