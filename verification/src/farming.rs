use vstd::prelude::*;

use crate::error::StableSwapError;
use crate::pool::StablePool;
use crate::MIN_FARMING_DURATION;
use crate::REWARD_PRECISION;
use vstd::arithmetic::mul::lemma_mul_upper_bound;

verus! {

// ─────────────────────────────────────────────────────────────────────────────
// Farming accrual: a reward-per-share accumulator distributes a reward asset
// to staked pool-share holders over a fixed window. The accumulator is
// fixed-point, scaled by `REWARD_PRECISION`; a staker's entitlement is its
// stake times the accumulator, less the debt recorded when the stake last
// changed.
// ─────────────────────────────────────────────────────────────────────────────

/// A reward window: admin-created, fixed bounds, never deleted.
#[derive(Clone, Copy, Debug)]
pub struct FarmingPeriod {
    /// When rewards start accruing.
    pub start_time: i64,
    /// When rewards stop accruing.
    pub end_time: i64,
    /// Rewards released per second.
    pub reward_per_second: u64,
    /// Rewards allocated to the window.
    pub total_rewards: u64,
    /// Rewards already paid out. That this total stays within
    /// `total_rewards` is a property of whole histories — it rests on every
    /// position's debt being tied to this window's accumulator — so it is
    /// not stated by the per-call contracts below, which fix each single
    /// step exactly.
    pub distributed_rewards: u64,
    /// When the accumulator was last advanced.
    pub last_update_time: i64,
    /// Accumulated reward per staked share, scaled by `REWARD_PRECISION`.
    pub acc_reward_per_share: u128,
    /// Pool shares currently staked.
    pub total_staked: u64,
}

impl FarmingPeriod {
    /// Well-formedness: the constructor establishes this and every operation
    /// preserves it.
    pub open spec fn wf(self) -> bool {
        &&& 0 <= self.start_time
        &&& self.start_time < self.end_time
        &&& 0 <= self.last_update_time
    }
}

/// One staker's stake in one window: created on first stake, never deleted.
#[derive(Clone, Copy, Debug)]
pub struct UserFarmingPosition {
    /// The staker's identity.
    pub owner: u64,
    /// Pool shares this staker has staked.
    pub lp_staked: u64,
    /// The accumulator level already settled with this staker.
    pub reward_debt: u64,
    /// Rewards banked but not yet claimed.
    pub pending_rewards: u64,
}

/// What `create_farming_period` returns, for every input: the window must be
/// admin-created, lie in the future, run at least the minimum duration, and
/// release at least one reward unit per second.
pub open spec fn spec_create_farming_period(
    p: StablePool,
    caller: u64,
    start_time: i64,
    end_time: i64,
    total_rewards: u64,
    now: i64,
) -> Result<FarmingPeriod, StableSwapError> {
    if caller != p.authority {
        Err(StableSwapError::Unauthorized)
    } else if start_time < now {
        Err(StableSwapError::InvalidFarmingPeriod)
    } else if end_time <= start_time {
        Err(StableSwapError::InvalidFarmingPeriod)
    } else if end_time - start_time < MIN_FARMING_DURATION {
        Err(StableSwapError::FarmingPeriodTooShort)
    } else if total_rewards == 0 {
        Err(StableSwapError::ZeroAmount)
    } else if (total_rewards as int) / (end_time - start_time) == 0 {
        Err(StableSwapError::ZeroAmount)
    } else {
        Ok(
            FarmingPeriod {
                start_time,
                end_time,
                reward_per_second: ((total_rewards as int) / (end_time - start_time)) as u64,
                total_rewards,
                distributed_rewards: 0,
                last_update_time: start_time,
                acc_reward_per_share: 0,
                total_staked: 0,
            },
        )
    }
}

/// Opens a reward window. The ledger must move `total_rewards` of the reward
/// asset into the farming vault alongside this call.
pub fn create_farming_period(
    p: &StablePool,
    caller: u64,
    start_time: i64,
    end_time: i64,
    total_rewards: u64,
    now: i64,
) -> (r: Result<FarmingPeriod, StableSwapError>)
    requires
        now >= 0,
    ensures
        r == spec_create_farming_period(*p, caller, start_time, end_time, total_rewards, now),
        r matches Ok(f) ==> f.wf(),
{
    if caller != p.authority {
        return Err(StableSwapError::Unauthorized);
    }
    if start_time < now {
        return Err(StableSwapError::InvalidFarmingPeriod);
    }
    if end_time <= start_time {
        return Err(StableSwapError::InvalidFarmingPeriod);
    }
    if end_time - start_time < MIN_FARMING_DURATION {
        return Err(StableSwapError::FarmingPeriodTooShort);
    }
    if total_rewards == 0 {
        return Err(StableSwapError::ZeroAmount);
    }
    let duration: u64 = (end_time - start_time) as u64;
    let reward_per_second: u64 = total_rewards / duration;
    if reward_per_second == 0 {
        return Err(StableSwapError::ZeroAmount);
    }
    Ok(
        FarmingPeriod {
            start_time,
            end_time,
            reward_per_second,
            total_rewards,
            distributed_rewards: 0,
            last_update_time: start_time,
            acc_reward_per_share: 0,
            total_staked: 0,
        },
    )
}

/// What advancing the accumulator to `now` does: nothing before the window
/// opens; with nothing staked only the clock advances; otherwise the rewards
/// released since the last update, capped at the window's end, are spread
/// over the staked shares.
pub open spec fn spec_update_farming(f: FarmingPeriod, now: i64) -> Result<
    FarmingPeriod,
    StableSwapError,
> {
    if now < f.start_time {
        Ok(f)
    } else if f.total_staked == 0 {
        Ok(FarmingPeriod { last_update_time: now, ..f })
    } else {
        let effective = if now <= f.end_time {
            now
        } else {
            f.end_time
        };
        if effective <= f.last_update_time {
            Ok(f)
        } else {
            let rewards = f.reward_per_second * (effective - f.last_update_time);
            if rewards * REWARD_PRECISION > u128::MAX {
                Err(StableSwapError::MathOverflow)
            } else if f.acc_reward_per_share + rewards * REWARD_PRECISION / (
            f.total_staked as int) > u128::MAX {
                Err(StableSwapError::MathOverflow)
            } else {
                Ok(
                    FarmingPeriod {
                        acc_reward_per_share: (f.acc_reward_per_share + rewards * REWARD_PRECISION
                            / (f.total_staked as int)) as u128,
                        last_update_time: effective,
                        ..f
                    },
                )
            }
        }
    }
}

/// Advances the reward-per-share accumulator to `now`.
pub fn update_farming_rewards(f: &mut FarmingPeriod, now: i64) -> (r: Result<(), StableSwapError>)
    requires
        old(f).wf(),
        now >= 0,
    ensures
        final(f).wf(),
        match spec_update_farming(*old(f), now) {
            Ok(f2) => r == Ok::<(), StableSwapError>(()) && *final(f) == f2,
            Err(e) => r == Err::<(), StableSwapError>(e) && *final(f) == *old(f),
        },
{
    if now < f.start_time {
        return Ok(());
    }
    if f.total_staked == 0 {
        f.last_update_time = now;
        return Ok(());
    }
    let effective: i64 = if now <= f.end_time {
        now
    } else {
        f.end_time
    };
    if effective <= f.last_update_time {
        return Ok(());
    }
    let elapsed: u128 = (effective - f.last_update_time) as u128;
    proof {
        lemma_mul_upper_bound(
            f.reward_per_second as int,
            u64::MAX as int,
            elapsed as int,
            0x7fff_ffff_ffff_ffff,
        );
    }
    let rewards: u128 = (f.reward_per_second as u128) * elapsed;
    let scaled: u128 = match rewards.checked_mul(REWARD_PRECISION) {
        Some(v) => v,
        None => {
            return Err(StableSwapError::MathOverflow);
        },
    };
    let increase: u128 = scaled / (f.total_staked as u128);
    let new_acc: u128 = match f.acc_reward_per_share.checked_add(increase) {
        Some(v) => v,
        None => {
            return Err(StableSwapError::MathOverflow);
        },
    };
    f.acc_reward_per_share = new_acc;
    f.last_update_time = effective;
    Ok(())
}

/// A staker's unsettled entitlement: its stake times the accumulator, scaled
/// back down, less the recorded debt. A rounding-induced negative clamps to
/// zero rather than failing, so a staker is never locked out.
pub open spec fn spec_pending_rewards(pos: UserFarmingPosition, f: FarmingPeriod) -> Result<
    u64,
    StableSwapError,
> {
    if pos.lp_staked == 0 {
        Ok(0)
    } else if pos.lp_staked * f.acc_reward_per_share > u128::MAX {
        Err(StableSwapError::MathOverflow)
    } else {
        let accumulated = pos.lp_staked * f.acc_reward_per_share / (REWARD_PRECISION as int);
        let pending = if accumulated >= pos.reward_debt {
            accumulated - pos.reward_debt
        } else {
            0
        };
        if pending > u64::MAX {
            Err(StableSwapError::MathOverflow)
        } else {
            Ok(pending as u64)
        }
    }
}

/// The rewards `pos` could claim right now against `f`'s accumulator.
pub fn calculate_pending_rewards(pos: &UserFarmingPosition, f: &FarmingPeriod) -> (r: Result<
    u64,
    StableSwapError,
>)
    ensures
        r == spec_pending_rewards(*pos, *f),
{
    if pos.lp_staked == 0 {
        return Ok(0);
    }
    let product: u128 = match (pos.lp_staked as u128).checked_mul(f.acc_reward_per_share) {
        Some(v) => v,
        None => {
            return Err(StableSwapError::MathOverflow);
        },
    };
    let accumulated: u128 = product / REWARD_PRECISION;
    let pending: u128 = if accumulated >= pos.reward_debt as u128 {
        accumulated - pos.reward_debt as u128
    } else {
        0
    };
    if pending > u64::MAX as u128 {
        return Err(StableSwapError::MathOverflow);
    }
    Ok(pending as u64)
}

/// The accumulator level settled with a stake of `lp_staked`: recorded as the
/// stake's debt so that only growth after this point counts.
pub open spec fn spec_reward_debt(lp_staked: u64, acc_reward_per_share: u128) -> Result<
    u64,
    StableSwapError,
> {
    if lp_staked * acc_reward_per_share > u128::MAX {
        Err(StableSwapError::MathOverflow)
    } else if lp_staked * acc_reward_per_share / (REWARD_PRECISION as int) > u64::MAX {
        Err(StableSwapError::MathOverflow)
    } else {
        Ok((lp_staked * acc_reward_per_share / (REWARD_PRECISION as int)) as u64)
    }
}

/// The debt a stake of `lp_staked` records at accumulator level
/// `acc_reward_per_share`.
pub fn calculate_reward_debt(lp_staked: u64, acc_reward_per_share: u128) -> (r: Result<
    u64,
    StableSwapError,
>)
    ensures
        r == spec_reward_debt(lp_staked, acc_reward_per_share),
{
    let product: u128 = match (lp_staked as u128).checked_mul(acc_reward_per_share) {
        Some(v) => v,
        None => {
            return Err(StableSwapError::MathOverflow);
        },
    };
    let debt: u128 = product / REWARD_PRECISION;
    if debt > u64::MAX as u128 {
        return Err(StableSwapError::MathOverflow);
    }
    Ok(debt as u64)
}

/// What `stake_lp` does, for every input: only inside the window; the
/// accumulator advances first; an existing stake banks its entitlement
/// before the stake grows and the debt resets.
pub open spec fn spec_stake_lp(
    f: FarmingPeriod,
    pos: UserFarmingPosition,
    owner: u64,
    amount: u64,
    now: i64,
) -> Result<(FarmingPeriod, UserFarmingPosition), StableSwapError> {
    if amount == 0 {
        Err(StableSwapError::ZeroAmount)
    } else if now < f.start_time {
        Err(StableSwapError::FarmingNotStarted)
    } else if now >= f.end_time {
        Err(StableSwapError::FarmingEnded)
    } else {
        match spec_update_farming(f, now) {
            Err(e) => Err(e),
            Ok(f2) => {
                let pending_r = if pos.lp_staked > 0 {
                    spec_pending_rewards(pos, f2)
                } else {
                    Ok(0u64)
                };
                match pending_r {
                    Err(e) => Err(e),
                    Ok(pending) => if pos.pending_rewards + pending > u64::MAX {
                        Err(StableSwapError::MathOverflow)
                    } else if pos.lp_staked + amount > u64::MAX {
                        Err(StableSwapError::MathOverflow)
                    } else {
                        match spec_reward_debt(
                            (pos.lp_staked + amount) as u64,
                            f2.acc_reward_per_share,
                        ) {
                            Err(e) => Err(e),
                            Ok(debt) => if f2.total_staked + amount > u64::MAX {
                                Err(StableSwapError::MathOverflow)
                            } else {
                                Ok(
                                    (
                                        FarmingPeriod {
                                            total_staked: (f2.total_staked + amount) as u64,
                                            ..f2
                                        },
                                        UserFarmingPosition {
                                            owner,
                                            lp_staked: (pos.lp_staked + amount) as u64,
                                            reward_debt: debt,
                                            pending_rewards: (pos.pending_rewards
                                                + pending) as u64,
                                        },
                                    ),
                                )
                            },
                        }
                    },
                }
            },
        }
    }
}

/// Stakes `amount` pool shares into the window for `owner`. The ledger must
/// move the shares into the staking vault alongside this call.
pub fn stake_lp(
    f: &mut FarmingPeriod,
    pos: &mut UserFarmingPosition,
    owner: u64,
    amount: u64,
    now: i64,
) -> (r: Result<(), StableSwapError>)
    requires
        old(f).wf(),
        now >= 0,
    ensures
        final(f).wf(),
        match spec_stake_lp(*old(f), *old(pos), owner, amount, now) {
            Ok((f2, p2)) => r == Ok::<(), StableSwapError>(()) && *final(f) == f2 && *final(pos)
                == p2,
            Err(e) => r == Err::<(), StableSwapError>(e) && *final(f) == *old(f) && *final(pos)
                == *old(pos),
        },
{
    if amount == 0 {
        return Err(StableSwapError::ZeroAmount);
    }
    if now < f.start_time {
        return Err(StableSwapError::FarmingNotStarted);
    }
    if now >= f.end_time {
        return Err(StableSwapError::FarmingEnded);
    }
    let mut f2: FarmingPeriod = *f;
    match update_farming_rewards(&mut f2, now) {
        Ok(()) => (),
        Err(e) => {
            return Err(e);
        },
    }
    let pending: u64 = if pos.lp_staked > 0 {
        match calculate_pending_rewards(pos, &f2) {
            Ok(v) => v,
            Err(e) => {
                return Err(e);
            },
        }
    } else {
        0
    };
    let new_pending: u64 = match pos.pending_rewards.checked_add(pending) {
        Some(v) => v,
        None => {
            return Err(StableSwapError::MathOverflow);
        },
    };
    let new_staked: u64 = match pos.lp_staked.checked_add(amount) {
        Some(v) => v,
        None => {
            return Err(StableSwapError::MathOverflow);
        },
    };
    let debt: u64 = match calculate_reward_debt(new_staked, f2.acc_reward_per_share) {
        Ok(v) => v,
        Err(e) => {
            return Err(e);
        },
    };
    let new_total: u64 = match f2.total_staked.checked_add(amount) {
        Some(v) => v,
        None => {
            return Err(StableSwapError::MathOverflow);
        },
    };
    f2.total_staked = new_total;
    *f = f2;
    pos.owner = owner;
    pos.lp_staked = new_staked;
    pos.reward_debt = debt;
    pos.pending_rewards = new_pending;
    Ok(())
}

/// What `unstake_lp` does, for every input: the accumulator advances, the
/// entitlement so far is banked, the stake shrinks and the debt resets.
pub open spec fn spec_unstake_lp(
    f: FarmingPeriod,
    pos: UserFarmingPosition,
    amount: u64,
    now: i64,
) -> Result<(FarmingPeriod, UserFarmingPosition), StableSwapError> {
    if amount == 0 {
        Err(StableSwapError::ZeroAmount)
    } else if pos.lp_staked < amount {
        Err(StableSwapError::InsufficientStake)
    } else {
        match spec_update_farming(f, now) {
            Err(e) => Err(e),
            Ok(f2) => match spec_pending_rewards(pos, f2) {
                Err(e) => Err(e),
                Ok(pending) => if pos.pending_rewards + pending > u64::MAX {
                    Err(StableSwapError::MathOverflow)
                } else {
                    match spec_reward_debt(
                        (pos.lp_staked - amount) as u64,
                        f2.acc_reward_per_share,
                    ) {
                        Err(e) => Err(e),
                        Ok(debt) => if f2.total_staked < amount {
                            Err(StableSwapError::MathOverflow)
                        } else {
                            Ok(
                                (
                                    FarmingPeriod {
                                        total_staked: (f2.total_staked - amount) as u64,
                                        ..f2
                                    },
                                    UserFarmingPosition {
                                        lp_staked: (pos.lp_staked - amount) as u64,
                                        reward_debt: debt,
                                        pending_rewards: (pos.pending_rewards + pending) as u64,
                                        ..pos
                                    },
                                ),
                            )
                        },
                    }
                },
            },
        }
    }
}

/// Unstakes `amount` pool shares. The ledger must move the shares back to
/// the staker alongside this call.
pub fn unstake_lp(f: &mut FarmingPeriod, pos: &mut UserFarmingPosition, amount: u64, now: i64) -> (
    r: Result<(), StableSwapError>)
    requires
        old(f).wf(),
        now >= 0,
    ensures
        final(f).wf(),
        match spec_unstake_lp(*old(f), *old(pos), amount, now) {
            Ok((f2, p2)) => r == Ok::<(), StableSwapError>(()) && *final(f) == f2 && *final(pos)
                == p2,
            Err(e) => r == Err::<(), StableSwapError>(e) && *final(f) == *old(f) && *final(pos)
                == *old(pos),
        },
{
    if amount == 0 {
        return Err(StableSwapError::ZeroAmount);
    }
    if pos.lp_staked < amount {
        return Err(StableSwapError::InsufficientStake);
    }
    let mut f2: FarmingPeriod = *f;
    match update_farming_rewards(&mut f2, now) {
        Ok(()) => (),
        Err(e) => {
            return Err(e);
        },
    }
    let pending: u64 = match calculate_pending_rewards(pos, &f2) {
        Ok(v) => v,
        Err(e) => {
            return Err(e);
        },
    };
    let new_pending: u64 = match pos.pending_rewards.checked_add(pending) {
        Some(v) => v,
        None => {
            return Err(StableSwapError::MathOverflow);
        },
    };
    let new_staked: u64 = pos.lp_staked - amount;
    let debt: u64 = match calculate_reward_debt(new_staked, f2.acc_reward_per_share) {
        Ok(v) => v,
        Err(e) => {
            return Err(e);
        },
    };
    let new_total: u64 = match f2.total_staked.checked_sub(amount) {
        Some(v) => v,
        None => {
            return Err(StableSwapError::MathOverflow);
        },
    };
    f2.total_staked = new_total;
    *f = f2;
    pos.lp_staked = new_staked;
    pos.reward_debt = debt;
    pos.pending_rewards = new_pending;
    Ok(())
}

/// What `claim_farming_rewards` does, for every input: the accumulator
/// advances, the whole entitlement is paid out and zeroed, and the debt
/// resets to the current level.
pub open spec fn spec_claim_farming_rewards(
    f: FarmingPeriod,
    pos: UserFarmingPosition,
    now: i64,
) -> Result<(FarmingPeriod, UserFarmingPosition, u64), StableSwapError> {
    match spec_update_farming(f, now) {
        Err(e) => Err(e),
        Ok(f2) => match spec_pending_rewards(pos, f2) {
            Err(e) => Err(e),
            Ok(pending_new) => if pos.pending_rewards + pending_new > u64::MAX {
                Err(StableSwapError::MathOverflow)
            } else if pos.pending_rewards + pending_new == 0 {
                Err(StableSwapError::NoRewardsToClaim)
            } else {
                match spec_reward_debt(pos.lp_staked, f2.acc_reward_per_share) {
                    Err(e) => Err(e),
                    Ok(debt) => if f2.distributed_rewards + pos.pending_rewards + pending_new
                        > u64::MAX {
                        Err(StableSwapError::MathOverflow)
                    } else {
                        Ok(
                            (
                                FarmingPeriod {
                                    distributed_rewards: (f2.distributed_rewards
                                        + pos.pending_rewards + pending_new) as u64,
                                    ..f2
                                },
                                UserFarmingPosition {
                                    reward_debt: debt,
                                    pending_rewards: 0,
                                    ..pos
                                },
                                (pos.pending_rewards + pending_new) as u64,
                            ),
                        )
                    },
                }
            },
        },
    }
}

/// Pays out everything the staker has earned. Returns the amount the ledger
/// must move from the farming vault to the staker. The contract fixes this
/// one step exactly; that all claims of a window together stay within its
/// `total_rewards` depends on every position of the window at once, and is
/// documented on `distributed_rewards` rather than stated here.
pub fn claim_farming_rewards(f: &mut FarmingPeriod, pos: &mut UserFarmingPosition, now: i64) -> (r:
    Result<u64, StableSwapError>)
    requires
        old(f).wf(),
        now >= 0,
    ensures
        final(f).wf(),
        match spec_claim_farming_rewards(*old(f), *old(pos), now) {
            Ok((f2, p2, paid)) => r == Ok::<u64, StableSwapError>(paid) && *final(f) == f2
                && *final(pos) == p2,
            Err(e) => r == Err::<u64, StableSwapError>(e) && *final(f) == *old(f) && *final(pos)
                == *old(pos),
        },
{
    let mut f2: FarmingPeriod = *f;
    match update_farming_rewards(&mut f2, now) {
        Ok(()) => (),
        Err(e) => {
            return Err(e);
        },
    }
    let pending_new: u64 = match calculate_pending_rewards(pos, &f2) {
        Ok(v) => v,
        Err(e) => {
            return Err(e);
        },
    };
    let total_pending: u64 = match pos.pending_rewards.checked_add(pending_new) {
        Some(v) => v,
        None => {
            return Err(StableSwapError::MathOverflow);
        },
    };
    if total_pending == 0 {
        return Err(StableSwapError::NoRewardsToClaim);
    }
    let debt: u64 = match calculate_reward_debt(pos.lp_staked, f2.acc_reward_per_share) {
        Ok(v) => v,
        Err(e) => {
            return Err(e);
        },
    };
    let new_distributed: u64 = match f2.distributed_rewards.checked_add(total_pending) {
        Some(v) => v,
        None => {
            return Err(StableSwapError::MathOverflow);
        },
    };
    f2.distributed_rewards = new_distributed;
    *f = f2;
    pos.pending_rewards = 0;
    pos.reward_debt = debt;
    Ok(total_pending)
}

} // verus!
