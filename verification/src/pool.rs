use vstd::prelude::*;

use crate::amp::get_current_amplification;
use crate::amp::spec_current_amplification;
use crate::error::StableSwapError;
use crate::hashing::amp_commit_hash;
use crate::hashing::amp_ramp_preimage;
use crate::hashing::bytes32_eq;
use crate::hashing::sha256_of;
use crate::ADMIN_FEE_PERCENT;
use crate::AMP_COMMIT_DELAY;
use crate::AUTHORITY_TIMELOCK;
use crate::MAX_AMPLIFICATION;
use crate::MAX_AMP_CHANGE;
use crate::MIN_AMPLIFICATION;
use crate::MIN_RAMP_DURATION;
use crate::SWAP_FEE_BPS;

verus! {

/// The pool record: tracked balances, pool-share supply, the amplification
/// ramp schedule, fee parameters, admin-fee accumulators, the pause flag,
/// the two-step authority handoff and the commit-reveal state for ramp
/// changes. Accounts and asset custody live outside; operations take the
/// ledger's relevant holdings as arguments and return the amounts the ledger
/// must move.
#[derive(Clone, Copy, Debug)]
pub struct StablePool {
    /// The admin identity; zero never names a valid authority.
    pub authority: u64,
    /// The amplification value in effect when the current schedule was set.
    /// The coefficient in effect at any time is determined by the schedule
    /// fields below.
    pub amplification: u64,
    /// Amplification ramping: initial value.
    pub initial_amplification: u64,
    /// Amplification ramping: target value.
    pub target_amplification: u64,
    /// Amplification ramping: start timestamp.
    pub ramp_start_time: i64,
    /// Amplification ramping: end timestamp.
    pub ramp_stop_time: i64,
    /// Trading fee, in basis points.
    pub swap_fee_bps: u64,
    /// Admin share of fees, in percent.
    pub admin_fee_percent: u64,
    /// Tracked holdings of the first asset.
    pub bags_balance: u64,
    /// Tracked holdings of the second asset.
    pub pump_balance: u64,
    /// Outstanding pool-share tokens.
    pub lp_supply: u64,
    /// Fees owed to the admin, first asset.
    pub admin_fees_bags: u64,
    /// Fees owed to the admin, second asset.
    pub admin_fees_pump: u64,
    /// Lifetime volume received in the first asset.
    pub total_volume_bags: u64,
    /// Lifetime volume received in the second asset.
    pub total_volume_pump: u64,
    /// Blocks swaps and deposits; never blocks withdrawal.
    pub paused: bool,
    /// Whether the vaults have been set up; until then the pool stays paused.
    pub vaults_initialized: bool,
    /// Two-step authority handoff: the proposed new authority.
    pub pending_authority: Option<u64>,
    /// Two-step authority handoff: when it was proposed.
    pub authority_transfer_time: Option<i64>,
    /// Commit-reveal for ramp changes: the committed hash.
    pub pending_amp_commit: Option<[u8; 32]>,
    /// Commit-reveal for ramp changes: when the commit was made.
    pub amp_commit_time: Option<i64>,
}

impl StablePool {
    /// Well-formedness: every constructor establishes this and every
    /// operation preserves it.
    pub open spec fn wf(self) -> bool {
        &&& MIN_AMPLIFICATION <= self.amplification <= MAX_AMPLIFICATION
        &&& MIN_AMPLIFICATION <= self.initial_amplification <= MAX_AMPLIFICATION
        &&& MIN_AMPLIFICATION <= self.target_amplification <= MAX_AMPLIFICATION
        &&& self.swap_fee_bps <= 100
        &&& self.admin_fee_percent <= 100
        &&& 0 <= self.ramp_start_time
        &&& self.ramp_start_time <= self.ramp_stop_time
        &&& match self.authority_transfer_time {
            Some(t) => t >= 0,
            None => true,
        }
        &&& match self.amp_commit_time {
            Some(t) => t >= 0,
            None => true,
        }
    }
}

/// A fresh pool record under `authority` with the given amplification: zero
/// balances, zero supply, no ramp, default fees.
pub open spec fn spec_new_pool(
    authority: u64,
    amplification: u64,
    paused: bool,
    vaults_initialized: bool,
) -> StablePool {
    StablePool {
        authority,
        amplification,
        initial_amplification: amplification,
        target_amplification: amplification,
        ramp_start_time: 0,
        ramp_stop_time: 0,
        swap_fee_bps: SWAP_FEE_BPS,
        admin_fee_percent: ADMIN_FEE_PERCENT,
        bags_balance: 0,
        pump_balance: 0,
        lp_supply: 0,
        admin_fees_bags: 0,
        admin_fees_pump: 0,
        total_volume_bags: 0,
        total_volume_pump: 0,
        paused,
        vaults_initialized,
        pending_authority: None,
        authority_transfer_time: None,
        pending_amp_commit: None,
        amp_commit_time: None,
    }
}

impl StablePool {
    /// First setup step: the pool record alone, paused until `init_vaults`.
    pub fn create_pool(authority: u64, amplification: u64) -> (r: Result<
        StablePool,
        StableSwapError,
    >)
        ensures
            match r {
                Ok(p) => {
                    &&& MIN_AMPLIFICATION <= amplification <= MAX_AMPLIFICATION
                    &&& p == spec_new_pool(authority, amplification, true, false)
                    &&& p.wf()
                },
                Err(e) => {
                    &&& e == StableSwapError::InvalidAmplification
                    &&& !(MIN_AMPLIFICATION <= amplification <= MAX_AMPLIFICATION)
                },
            },
    {
        if !(amplification >= MIN_AMPLIFICATION && amplification <= MAX_AMPLIFICATION) {
            return Err(StableSwapError::InvalidAmplification);
        }
        Ok(
            StablePool {
                authority,
                amplification,
                initial_amplification: amplification,
                target_amplification: amplification,
                ramp_start_time: 0,
                ramp_stop_time: 0,
                swap_fee_bps: SWAP_FEE_BPS,
                admin_fee_percent: ADMIN_FEE_PERCENT,
                bags_balance: 0,
                pump_balance: 0,
                lp_supply: 0,
                admin_fees_bags: 0,
                admin_fees_pump: 0,
                total_volume_bags: 0,
                total_volume_pump: 0,
                paused: true,
                vaults_initialized: false,
                pending_authority: None,
                authority_transfer_time: None,
                pending_amp_commit: None,
                amp_commit_time: None,
            },
        )
    }

    /// Second setup step: marks the vaults as set up and opens the pool.
    pub fn init_vaults(&mut self, caller: u64) -> (r: Result<(), StableSwapError>)
        requires
            old(self).wf(),
        ensures
            final(self).wf(),
            match r {
                Ok(()) => {
                    &&& caller == old(self).authority
                    &&& !old(self).vaults_initialized
                    &&& *final(self) == (StablePool {
                        vaults_initialized: true,
                        paused: false,
                        ..*old(self)
                    })
                },
                Err(e) => {
                    &&& *final(self) == *old(self)
                    &&& if caller != old(self).authority {
                        e == StableSwapError::Unauthorized
                    } else {
                        e == StableSwapError::AlreadyInitialized && old(self).vaults_initialized
                    }
                },
            },
    {
        if caller != self.authority {
            return Err(StableSwapError::Unauthorized);
        }
        if self.vaults_initialized {
            return Err(StableSwapError::AlreadyInitialized);
        }
        self.vaults_initialized = true;
        self.paused = false;
        Ok(())
    }

    /// Combined setup: the pool record with vaults set up, ready for use.
    pub fn initialize(authority: u64, amplification: u64) -> (r: Result<
        StablePool,
        StableSwapError,
    >)
        ensures
            match r {
                Ok(p) => {
                    &&& MIN_AMPLIFICATION <= amplification <= MAX_AMPLIFICATION
                    &&& p == spec_new_pool(authority, amplification, false, true)
                    &&& p.wf()
                },
                Err(e) => {
                    &&& e == StableSwapError::InvalidAmplification
                    &&& !(MIN_AMPLIFICATION <= amplification <= MAX_AMPLIFICATION)
                },
            },
    {
        let mut p = match Self::create_pool(authority, amplification) {
            Ok(p) => p,
            Err(e) => {
                return Err(e);
            },
        };
        p.vaults_initialized = true;
        p.paused = false;
        Ok(p)
    }

    /// Sets the trading fee; at most 1%.
    pub fn update_swap_fee(&mut self, caller: u64, new_fee_bps: u64) -> (r: Result<
        (),
        StableSwapError,
    >)
        requires
            old(self).wf(),
        ensures
            final(self).wf(),
            match r {
                Ok(()) => {
                    &&& caller == old(self).authority
                    &&& new_fee_bps <= 100
                    &&& *final(self) == (StablePool { swap_fee_bps: new_fee_bps, ..*old(self) })
                },
                Err(e) => {
                    &&& *final(self) == *old(self)
                    &&& if caller != old(self).authority {
                        e == StableSwapError::Unauthorized
                    } else {
                        e == StableSwapError::FeeTooHigh && new_fee_bps > 100
                    }
                },
            },
    {
        if caller != self.authority {
            return Err(StableSwapError::Unauthorized);
        }
        if new_fee_bps > 100 {
            return Err(StableSwapError::FeeTooHigh);
        }
        self.swap_fee_bps = new_fee_bps;
        Ok(())
    }

    /// Pauses or unpauses swaps and deposits. Withdrawal is never paused.
    pub fn set_paused(&mut self, caller: u64, paused: bool) -> (r: Result<(), StableSwapError>)
        requires
            old(self).wf(),
        ensures
            final(self).wf(),
            match r {
                Ok(()) => {
                    &&& caller == old(self).authority
                    &&& *final(self) == (StablePool { paused, ..*old(self) })
                },
                Err(e) => {
                    &&& e == StableSwapError::Unauthorized
                    &&& caller != old(self).authority
                    &&& *final(self) == *old(self)
                },
            },
    {
        if caller != self.authority {
            return Err(StableSwapError::Unauthorized);
        }
        self.paused = paused;
        Ok(())
    }

    /// Proposes a new authority; the handoff completes only after the
    /// timelock, and only by the proposed authority's own call.
    pub fn initiate_authority_transfer(&mut self, caller: u64, new_authority: u64, now: i64) -> (r:
        Result<(), StableSwapError>)
        requires
            old(self).wf(),
            now >= 0,
        ensures
            final(self).wf(),
            match r {
                Ok(()) => {
                    &&& caller == old(self).authority
                    &&& new_authority != 0
                    &&& *final(self) == (StablePool {
                        pending_authority: Some(new_authority),
                        authority_transfer_time: Some(now),
                        ..*old(self)
                    })
                },
                Err(e) => {
                    &&& *final(self) == *old(self)
                    &&& if caller != old(self).authority {
                        e == StableSwapError::Unauthorized
                    } else {
                        e == StableSwapError::InvalidAuthority && new_authority == 0
                    }
                },
            },
    {
        if caller != self.authority {
            return Err(StableSwapError::Unauthorized);
        }
        if new_authority == 0 {
            return Err(StableSwapError::InvalidAuthority);
        }
        self.pending_authority = Some(new_authority);
        self.authority_transfer_time = Some(now);
        Ok(())
    }

    /// Completes a proposed handoff: only the proposed authority, and only
    /// once the timelock has run out.
    pub fn complete_authority_transfer(&mut self, caller: u64, now: i64) -> (r: Result<
        (),
        StableSwapError,
    >)
        requires
            old(self).wf(),
            now >= 0,
        ensures
            final(self).wf(),
            match r {
                Ok(()) => {
                    &&& old(self).pending_authority == Some(caller)
                    &&& match old(self).authority_transfer_time {
                        Some(t) => now - t >= AUTHORITY_TIMELOCK,
                        None => false,
                    }
                    &&& *final(self) == (StablePool {
                        authority: caller,
                        pending_authority: None,
                        authority_transfer_time: None,
                        ..*old(self)
                    })
                },
                Err(e) => {
                    &&& *final(self) == *old(self)
                    &&& match (old(self).pending_authority, old(self).authority_transfer_time) {
                        (None, _) => e == StableSwapError::NoTransferPending,
                        (Some(_), None) => e == StableSwapError::NoTransferPending,
                        (Some(pending), Some(t)) => if pending != caller {
                            e == StableSwapError::Unauthorized
                        } else {
                            e == StableSwapError::TimelockNotExpired && now - t
                                < AUTHORITY_TIMELOCK
                        },
                    }
                },
            },
    {
        let pending: u64 = match self.pending_authority {
            Some(p) => p,
            None => {
                return Err(StableSwapError::NoTransferPending);
            },
        };
        let transfer_time: i64 = match self.authority_transfer_time {
            Some(t) => t,
            None => {
                return Err(StableSwapError::NoTransferPending);
            },
        };
        if pending != caller {
            return Err(StableSwapError::Unauthorized);
        }
        if now - transfer_time < AUTHORITY_TIMELOCK {
            return Err(StableSwapError::TimelockNotExpired);
        }
        self.authority = pending;
        self.pending_authority = None;
        self.authority_transfer_time = None;
        Ok(())
    }

    /// Withdraws a proposed handoff.
    pub fn cancel_authority_transfer(&mut self, caller: u64) -> (r: Result<(), StableSwapError>)
        requires
            old(self).wf(),
        ensures
            final(self).wf(),
            match r {
                Ok(()) => {
                    &&& caller == old(self).authority
                    &&& old(self).pending_authority is Some
                    &&& *final(self) == (StablePool {
                        pending_authority: None,
                        authority_transfer_time: None,
                        ..*old(self)
                    })
                },
                Err(e) => {
                    &&& *final(self) == *old(self)
                    &&& if caller != old(self).authority {
                        e == StableSwapError::Unauthorized
                    } else {
                        e == StableSwapError::NoTransferPending && old(self).pending_authority
                            is None
                    }
                },
            },
    {
        if caller != self.authority {
            return Err(StableSwapError::Unauthorized);
        }
        if self.pending_authority.is_none() {
            return Err(StableSwapError::NoTransferPending);
        }
        self.pending_authority = None;
        self.authority_transfer_time = None;
        Ok(())
    }

    /// First phase of a ramp change: records the hash of the intended
    /// `(target, duration, salt)` and the time of the commitment.
    pub fn commit_amp_ramp(&mut self, caller: u64, commit_hash: [u8; 32], now: i64) -> (r: Result<
        (),
        StableSwapError,
    >)
        requires
            old(self).wf(),
            now >= 0,
        ensures
            final(self).wf(),
            match r {
                Ok(()) => {
                    &&& caller == old(self).authority
                    &&& *final(self) == (StablePool {
                        pending_amp_commit: Some(commit_hash),
                        amp_commit_time: Some(now),
                        ..*old(self)
                    })
                },
                Err(e) => {
                    &&& e == StableSwapError::Unauthorized
                    &&& caller != old(self).authority
                    &&& *final(self) == *old(self)
                },
            },
    {
        if caller != self.authority {
            return Err(StableSwapError::Unauthorized);
        }
        self.pending_amp_commit = Some(commit_hash);
        self.amp_commit_time = Some(now);
        Ok(())
    }

    /// Halts a running ramp: the coefficient in effect right now becomes the
    /// constant value.
    pub fn stop_ramp_amplification(&mut self, caller: u64, now: i64) -> (r: Result<
        (),
        StableSwapError,
    >)
        requires
            old(self).wf(),
        ensures
            final(self).wf(),
            match r {
                Ok(()) => {
                    &&& caller == old(self).authority
                    &&& *final(self) == (StablePool {
                        amplification: spec_current_amplification(*old(self), now) as u64,
                        initial_amplification: spec_current_amplification(*old(self), now) as u64,
                        target_amplification: spec_current_amplification(*old(self), now) as u64,
                        ramp_start_time: 0,
                        ramp_stop_time: 0,
                        ..*old(self)
                    })
                },
                Err(e) => {
                    &&& e == StableSwapError::Unauthorized
                    &&& caller != old(self).authority
                    &&& *final(self) == *old(self)
                },
            },
    {
        if caller != self.authority {
            return Err(StableSwapError::Unauthorized);
        }
        let current: u64 = get_current_amplification(self, now);
        self.amplification = current;
        self.initial_amplification = current;
        self.target_amplification = current;
        self.ramp_start_time = 0;
        self.ramp_stop_time = 0;
        Ok(())
    }
}

/// What `withdraw_admin_fees` does, for every input: the owed fees are paid
/// out only up to what the ledger holds beyond the tracked balances, so the
/// admin can never reach into depositors' principal; what cannot be paid yet
/// stays owed.
pub open spec fn spec_withdraw_admin_fees(
    p: StablePool,
    caller: u64,
    bags_vault_amount: u64,
    pump_vault_amount: u64,
) -> Result<(StablePool, u64, u64), StableSwapError> {
    if caller != p.authority {
        Err(StableSwapError::Unauthorized)
    } else if p.admin_fees_bags == 0 && p.admin_fees_pump == 0 {
        Err(StableSwapError::NoFeesToWithdraw)
    } else if p.admin_fees_bags > bags_vault_amount {
        Err(StableSwapError::InsufficientLiquidity)
    } else if p.admin_fees_pump > pump_vault_amount {
        Err(StableSwapError::InsufficientLiquidity)
    } else {
        let bags_available: u64 = if bags_vault_amount >= p.bags_balance {
            (bags_vault_amount - p.bags_balance) as u64
        } else {
            0
        };
        let pump_available: u64 = if pump_vault_amount >= p.pump_balance {
            (pump_vault_amount - p.pump_balance) as u64
        } else {
            0
        };
        let bags_to_withdraw: u64 = if p.admin_fees_bags <= bags_available {
            p.admin_fees_bags
        } else {
            bags_available
        };
        let pump_to_withdraw: u64 = if p.admin_fees_pump <= pump_available {
            p.admin_fees_pump
        } else {
            pump_available
        };
        if bags_to_withdraw == 0 && pump_to_withdraw == 0 {
            Err(StableSwapError::NoFeesToWithdraw)
        } else {
            Ok(
                (
                    StablePool {
                        admin_fees_bags: (p.admin_fees_bags - bags_to_withdraw) as u64,
                        admin_fees_pump: (p.admin_fees_pump - pump_to_withdraw) as u64,
                        ..p
                    },
                    bags_to_withdraw,
                    pump_to_withdraw,
                ),
            )
        }
    }
}

/// An admin withdrawal never reaches depositors' principal: each amount paid
/// out fits inside what the ledger holds beyond the tracked balance of that
/// asset, and what was not paid stays owed.
pub proof fn lemma_admin_withdrawal_spares_principal(
    p: StablePool,
    caller: u64,
    bags_vault_amount: u64,
    pump_vault_amount: u64,
    q: StablePool,
    bags_out: u64,
    pump_out: u64,
)
    requires
        spec_withdraw_admin_fees(p, caller, bags_vault_amount, pump_vault_amount) == Ok::<
            (StablePool, u64, u64),
            StableSwapError,
        >((q, bags_out, pump_out)),
    ensures
        bags_vault_amount >= p.bags_balance ==> bags_out + p.bags_balance <= bags_vault_amount,
        bags_vault_amount < p.bags_balance ==> bags_out == 0,
        pump_vault_amount >= p.pump_balance ==> pump_out + p.pump_balance <= pump_vault_amount,
        pump_vault_amount < p.pump_balance ==> pump_out == 0,
        q.admin_fees_bags == p.admin_fees_bags - bags_out,
        q.admin_fees_pump == p.admin_fees_pump - pump_out,
{
}

impl StablePool {
    /// Pays out accumulated admin fees, capped by what the ledger holds
    /// beyond the tracked balances. Returns the two amounts the ledger must
    /// move to the admin; the rest stays owed.
    pub fn withdraw_admin_fees(
        &mut self,
        caller: u64,
        bags_vault_amount: u64,
        pump_vault_amount: u64,
    ) -> (r: Result<(u64, u64), StableSwapError>)
        requires
            old(self).wf(),
        ensures
            final(self).wf(),
            match spec_withdraw_admin_fees(
                *old(self),
                caller,
                bags_vault_amount,
                pump_vault_amount,
            ) {
                Ok((p, bags_out, pump_out)) => r == Ok::<(u64, u64), StableSwapError>(
                    (bags_out, pump_out),
                ) && *final(self) == p,
                Err(e) => r == Err::<(u64, u64), StableSwapError>(e) && *final(self) == *old(self),
            },
    {
        if caller != self.authority {
            return Err(StableSwapError::Unauthorized);
        }
        let bags_fees: u64 = self.admin_fees_bags;
        let pump_fees: u64 = self.admin_fees_pump;
        if bags_fees == 0 && pump_fees == 0 {
            return Err(StableSwapError::NoFeesToWithdraw);
        }
        if bags_fees > bags_vault_amount {
            return Err(StableSwapError::InsufficientLiquidity);
        }
        if pump_fees > pump_vault_amount {
            return Err(StableSwapError::InsufficientLiquidity);
        }
        let bags_available: u64 = if bags_vault_amount >= self.bags_balance {
            bags_vault_amount - self.bags_balance
        } else {
            0
        };
        let pump_available: u64 = if pump_vault_amount >= self.pump_balance {
            pump_vault_amount - self.pump_balance
        } else {
            0
        };
        let bags_to_withdraw: u64 = if bags_fees <= bags_available {
            bags_fees
        } else {
            bags_available
        };
        let pump_to_withdraw: u64 = if pump_fees <= pump_available {
            pump_fees
        } else {
            pump_available
        };
        if bags_to_withdraw == 0 && pump_to_withdraw == 0 {
            return Err(StableSwapError::NoFeesToWithdraw);
        }
        self.admin_fees_bags = bags_fees - bags_to_withdraw;
        self.admin_fees_pump = pump_fees - pump_to_withdraw;
        Ok((bags_to_withdraw, pump_to_withdraw))
    }
}

/// What `ramp_amplification` does, for every well-formed pool and input: the
/// checks in order, then the new ramp schedule from the coefficient in effect
/// at reveal time.
pub open spec fn spec_ramp_amplification(
    p: StablePool,
    caller: u64,
    target: u64,
    duration: i64,
    salt: Seq<u8>,
    now: i64,
) -> Result<StablePool, StableSwapError> {
    if caller != p.authority {
        Err(StableSwapError::Unauthorized)
    } else if !(MIN_AMPLIFICATION <= target <= MAX_AMPLIFICATION) {
        Err(StableSwapError::InvalidAmplification)
    } else if duration < MIN_RAMP_DURATION {
        Err(StableSwapError::RampTooFast)
    } else {
        match (p.pending_amp_commit, p.amp_commit_time) {
            (None, _) => Err(StableSwapError::NoAmpCommitPending),
            (Some(_), None) => Err(StableSwapError::NoAmpCommitPending),
            (Some(commit), Some(commit_time)) => if now - commit_time < AMP_COMMIT_DELAY {
                Err(StableSwapError::AmpCommitDelayNotPassed)
            } else if sha256_of(amp_ramp_preimage(target, duration, salt)) != commit@ {
                Err(StableSwapError::AmpCommitMismatch)
            } else {
                let current = spec_current_amplification(p, now);
                let max_new = if current * MAX_AMP_CHANGE > u64::MAX {
                    u64::MAX as int
                } else {
                    current * MAX_AMP_CHANGE
                };
                let min_new = current / (MAX_AMP_CHANGE as int);
                if !(target <= max_new && target >= min_new) {
                    Err(StableSwapError::AmpChangeTooLarge)
                } else if now + duration > i64::MAX {
                    Err(StableSwapError::MathOverflow)
                } else {
                    Ok(
                        StablePool {
                            pending_amp_commit: None,
                            amp_commit_time: None,
                            amplification: current as u64,
                            initial_amplification: current as u64,
                            target_amplification: target,
                            ramp_start_time: now,
                            ramp_stop_time: (now + duration) as i64,
                            ..p
                        },
                    )
                }
            },
        }
    }
}

impl StablePool {
    /// Second phase of a ramp change: reveals the committed target, duration
    /// and salt; checks the delay, the hash, and that the target stays within
    /// the allowed factor of the coefficient in effect; then schedules the
    /// linear ramp from `now` over `duration`.
    pub fn ramp_amplification(
        &mut self,
        caller: u64,
        target_amplification: u64,
        ramp_duration: i64,
        salt: [u8; 32],
        now: i64,
    ) -> (r: Result<(), StableSwapError>)
        requires
            old(self).wf(),
            now >= 0,
        ensures
            final(self).wf(),
            match spec_ramp_amplification(
                *old(self),
                caller,
                target_amplification,
                ramp_duration,
                salt@,
                now,
            ) {
                Ok(p) => r == Ok::<(), StableSwapError>(()) && *final(self) == p,
                Err(e) => r == Err::<(), StableSwapError>(e) && *final(self) == *old(self),
            },
    {
        if caller != self.authority {
            return Err(StableSwapError::Unauthorized);
        }
        if !(target_amplification >= MIN_AMPLIFICATION && target_amplification
            <= MAX_AMPLIFICATION) {
            return Err(StableSwapError::InvalidAmplification);
        }
        if ramp_duration < MIN_RAMP_DURATION {
            return Err(StableSwapError::RampTooFast);
        }
        let pending_commit: [u8; 32] = match self.pending_amp_commit {
            Some(h) => h,
            None => {
                return Err(StableSwapError::NoAmpCommitPending);
            },
        };
        let commit_time: i64 = match self.amp_commit_time {
            Some(t) => t,
            None => {
                return Err(StableSwapError::NoAmpCommitPending);
            },
        };
        if now - commit_time < AMP_COMMIT_DELAY {
            return Err(StableSwapError::AmpCommitDelayNotPassed);
        }
        let computed: [u8; 32] = amp_commit_hash(target_amplification, ramp_duration, &salt);
        if !bytes32_eq(&computed, &pending_commit) {
            return Err(StableSwapError::AmpCommitMismatch);
        }
        let current: u64 = get_current_amplification(self, now);
        let max_new: u64 = current * MAX_AMP_CHANGE;
        let min_new: u64 = current / MAX_AMP_CHANGE;
        if !(target_amplification <= max_new && target_amplification >= min_new) {
            return Err(StableSwapError::AmpChangeTooLarge);
        }
        let stop_time: i64 = match now.checked_add(ramp_duration) {
            Some(t) => t,
            None => {
                return Err(StableSwapError::MathOverflow);
            },
        };
        self.pending_amp_commit = None;
        self.amp_commit_time = None;
        self.amplification = current;
        self.initial_amplification = current;
        self.target_amplification = target_amplification;
        self.ramp_start_time = now;
        self.ramp_stop_time = stop_time;
        Ok(())
    }
}

} // verus!
