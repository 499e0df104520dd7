use vstd::prelude::*;

use crate::amp::get_current_amplification;
use crate::amp::spec_current_amplification;
use crate::arith::lemma_mul_div_le;
use crate::error::StableSwapError;
use crate::pool::StablePool;
use crate::solver::calculate_swap_output;
use crate::solver::spec_calculate_swap_output;
use crate::MAX_SLIPPAGE_BPS;
use crate::MIGRATION_FEE_MILLI_BPS;
use crate::MIN_SWAP_AMOUNT;

verus! {

// ─────────────────────────────────────────────────────────────────────────────
// Swap engine: invariant-priced swaps, and the migration path at a fixed
// near-1:1 rate with a flat fee. Both directions of each path share one spec,
// with `bags_to_pump` naming the input side.
// ─────────────────────────────────────────────────────────────────────────────

/// What a swap does, for every input: the checks in order — pause, dust
/// floor, the caller's own minimum within the maximum-slippage band, the
/// deadline, and the ledger's holdings covering the tracked balances — then
/// the invariant-priced output less the trading fee. The gross output leaves
/// the tracked balance; the fee stays in the vault as pool value, with the
/// admin's share earmarked.
pub open spec fn spec_swap(
    p: StablePool,
    bags_vault_amount: u64,
    pump_vault_amount: u64,
    amount_in: u64,
    min_amount_out: u64,
    deadline: i64,
    now: i64,
    bags_to_pump: bool,
) -> Result<(StablePool, u64), StableSwapError> {
    if p.paused {
        Err(StableSwapError::PoolPaused)
    } else if amount_in < MIN_SWAP_AMOUNT {
        Err(StableSwapError::AmountTooSmall)
    } else if min_amount_out < amount_in * (10000 - MAX_SLIPPAGE_BPS) / 10000 {
        Err(StableSwapError::SlippageTooHigh)
    } else if now > deadline {
        Err(StableSwapError::TransactionExpired)
    } else if bags_vault_amount < p.bags_balance {
        Err(StableSwapError::VaultBalanceMismatch)
    } else if pump_vault_amount < p.pump_balance {
        Err(StableSwapError::VaultBalanceMismatch)
    } else {
        let amp = spec_current_amplification(p, now) as u64;
        match spec_calculate_swap_output(
            p.bags_balance,
            p.pump_balance,
            amount_in,
            amp,
            bags_to_pump,
        ) {
            Err(e) => Err(e),
            Ok(amount_out) => {
                let fee = amount_out * p.swap_fee_bps / 10000;
                let admin_fee = fee * p.admin_fee_percent / 100;
                let out_after = amount_out - fee;
                let out_balance = if bags_to_pump {
                    p.pump_balance
                } else {
                    p.bags_balance
                };
                let in_balance = if bags_to_pump {
                    p.bags_balance
                } else {
                    p.pump_balance
                };
                let admin_fees_out = if bags_to_pump {
                    p.admin_fees_pump
                } else {
                    p.admin_fees_bags
                };
                let volume_in = if bags_to_pump {
                    p.total_volume_bags
                } else {
                    p.total_volume_pump
                };
                if out_after < min_amount_out {
                    Err(StableSwapError::SlippageExceeded)
                } else if out_after > out_balance {
                    Err(StableSwapError::InsufficientLiquidity)
                } else if in_balance + amount_in > u64::MAX {
                    Err(StableSwapError::MathOverflow)
                } else if admin_fees_out + admin_fee > u64::MAX {
                    Err(StableSwapError::MathOverflow)
                } else if volume_in + amount_in > u64::MAX {
                    Err(StableSwapError::MathOverflow)
                } else {
                    Ok(
                        (
                            StablePool {
                                bags_balance: if bags_to_pump {
                                    (p.bags_balance + amount_in) as u64
                                } else {
                                    (p.bags_balance - amount_out) as u64
                                },
                                pump_balance: if bags_to_pump {
                                    (p.pump_balance - amount_out) as u64
                                } else {
                                    (p.pump_balance + amount_in) as u64
                                },
                                admin_fees_bags: if bags_to_pump {
                                    p.admin_fees_bags
                                } else {
                                    (p.admin_fees_bags + admin_fee) as u64
                                },
                                admin_fees_pump: if bags_to_pump {
                                    (p.admin_fees_pump + admin_fee) as u64
                                } else {
                                    p.admin_fees_pump
                                },
                                total_volume_bags: if bags_to_pump {
                                    (p.total_volume_bags + amount_in) as u64
                                } else {
                                    p.total_volume_bags
                                },
                                total_volume_pump: if bags_to_pump {
                                    p.total_volume_pump
                                } else {
                                    (p.total_volume_pump + amount_in) as u64
                                },
                                ..p
                            },
                            out_after as u64,
                        ),
                    )
                }
            },
        }
    }
}

impl StablePool {
    fn do_swap(
        &mut self,
        bags_vault_amount: u64,
        pump_vault_amount: u64,
        amount_in: u64,
        min_amount_out: u64,
        deadline: i64,
        now: i64,
        bags_to_pump: bool,
    ) -> (r: Result<u64, StableSwapError>)
        requires
            old(self).wf(),
        ensures
            final(self).wf(),
            match spec_swap(
                *old(self),
                bags_vault_amount,
                pump_vault_amount,
                amount_in,
                min_amount_out,
                deadline,
                now,
                bags_to_pump,
            ) {
                Ok((p, out)) => r == Ok::<u64, StableSwapError>(out) && *final(self) == p,
                Err(e) => r == Err::<u64, StableSwapError>(e) && *final(self) == *old(self),
            },
    {
        if self.paused {
            return Err(StableSwapError::PoolPaused);
        }
        if amount_in < MIN_SWAP_AMOUNT {
            return Err(StableSwapError::AmountTooSmall);
        }
        proof {
            lemma_mul_div_le(amount_in as int, (10000 - MAX_SLIPPAGE_BPS) as int, 10000);
        }
        let min_allowed: u64 = ((amount_in as u128) * ((10000 - MAX_SLIPPAGE_BPS) as u128)
            / 10000) as u64;
        if min_amount_out < min_allowed {
            return Err(StableSwapError::SlippageTooHigh);
        }
        if now > deadline {
            return Err(StableSwapError::TransactionExpired);
        }
        if bags_vault_amount < self.bags_balance {
            return Err(StableSwapError::VaultBalanceMismatch);
        }
        if pump_vault_amount < self.pump_balance {
            return Err(StableSwapError::VaultBalanceMismatch);
        }
        let amp: u64 = get_current_amplification(self, now);
        let amount_out: u64 = match calculate_swap_output(
            self.bags_balance,
            self.pump_balance,
            amount_in,
            amp,
            bags_to_pump,
        ) {
            Ok(v) => v,
            Err(e) => {
                return Err(e);
            },
        };
        proof {
            lemma_mul_div_le(amount_out as int, self.swap_fee_bps as int, 10000);
            lemma_mul_div_le(
                (amount_out * self.swap_fee_bps / 10000) as int,
                self.admin_fee_percent as int,
                100,
            );
        }
        let fee: u64 = ((amount_out as u128) * (self.swap_fee_bps as u128) / 10000) as u64;
        let admin_fee: u64 = ((fee as u128) * (self.admin_fee_percent as u128) / 100) as u64;
        let amount_out_after_fee: u64 = amount_out - fee;
        if amount_out_after_fee < min_amount_out {
            return Err(StableSwapError::SlippageExceeded);
        }
        let out_balance: u64 = if bags_to_pump {
            self.pump_balance
        } else {
            self.bags_balance
        };
        if amount_out_after_fee > out_balance {
            return Err(StableSwapError::InsufficientLiquidity);
        }
        let in_balance: u64 = if bags_to_pump {
            self.bags_balance
        } else {
            self.pump_balance
        };
        let new_in_balance: u64 = match in_balance.checked_add(amount_in) {
            Some(v) => v,
            None => {
                return Err(StableSwapError::MathOverflow);
            },
        };
        let admin_fees_out: u64 = if bags_to_pump {
            self.admin_fees_pump
        } else {
            self.admin_fees_bags
        };
        let new_admin_fees_out: u64 = match admin_fees_out.checked_add(admin_fee) {
            Some(v) => v,
            None => {
                return Err(StableSwapError::MathOverflow);
            },
        };
        let volume_in: u64 = if bags_to_pump {
            self.total_volume_bags
        } else {
            self.total_volume_pump
        };
        let new_volume_in: u64 = match volume_in.checked_add(amount_in) {
            Some(v) => v,
            None => {
                return Err(StableSwapError::MathOverflow);
            },
        };
        let new_out_balance: u64 = out_balance - amount_out;
        if bags_to_pump {
            self.bags_balance = new_in_balance;
            self.pump_balance = new_out_balance;
            self.admin_fees_pump = new_admin_fees_out;
            self.total_volume_bags = new_volume_in;
        } else {
            self.pump_balance = new_in_balance;
            self.bags_balance = new_out_balance;
            self.admin_fees_bags = new_admin_fees_out;
            self.total_volume_pump = new_volume_in;
        }
        Ok(amount_out_after_fee)
    }

    /// Swaps the first asset for the second at the invariant-given rate, less
    /// the trading fee. Returns the net output the ledger must pay out.
    pub fn swap_bags_to_pump(
        &mut self,
        bags_vault_amount: u64,
        pump_vault_amount: u64,
        amount_in: u64,
        min_amount_out: u64,
        deadline: i64,
        now: i64,
    ) -> (r: Result<u64, StableSwapError>)
        requires
            old(self).wf(),
        ensures
            final(self).wf(),
            match spec_swap(
                *old(self),
                bags_vault_amount,
                pump_vault_amount,
                amount_in,
                min_amount_out,
                deadline,
                now,
                true,
            ) {
                Ok((p, out)) => r == Ok::<u64, StableSwapError>(out) && *final(self) == p,
                Err(e) => r == Err::<u64, StableSwapError>(e) && *final(self) == *old(self),
            },
    {
        self.do_swap(
            bags_vault_amount,
            pump_vault_amount,
            amount_in,
            min_amount_out,
            deadline,
            now,
            true,
        )
    }

    /// Swaps the second asset for the first at the invariant-given rate, less
    /// the trading fee. Returns the net output the ledger must pay out.
    pub fn swap_pump_to_bags(
        &mut self,
        bags_vault_amount: u64,
        pump_vault_amount: u64,
        amount_in: u64,
        min_amount_out: u64,
        deadline: i64,
        now: i64,
    ) -> (r: Result<u64, StableSwapError>)
        requires
            old(self).wf(),
        ensures
            final(self).wf(),
            match spec_swap(
                *old(self),
                bags_vault_amount,
                pump_vault_amount,
                amount_in,
                min_amount_out,
                deadline,
                now,
                false,
            ) {
                Ok((p, out)) => r == Ok::<u64, StableSwapError>(out) && *final(self) == p,
                Err(e) => r == Err::<u64, StableSwapError>(e) && *final(self) == *old(self),
            },
    {
        self.do_swap(
            bags_vault_amount,
            pump_vault_amount,
            amount_in,
            min_amount_out,
            deadline,
            now,
            false,
        )
    }
}

/// What a migration swap does, for every input: the same guards as the
/// invariant path, then a fixed near-1:1 conversion with the flat fee
/// `amount_in * MIGRATION_FEE_MILLI_BPS / 1_000_000`. The fee stays in the
/// tracked balance for the pool-share holders, apart from the admin's share.
pub open spec fn spec_migrate(
    p: StablePool,
    bags_vault_amount: u64,
    pump_vault_amount: u64,
    amount_in: u64,
    min_amount_out: u64,
    deadline: i64,
    now: i64,
    bags_to_pump: bool,
) -> Result<(StablePool, u64), StableSwapError> {
    if p.paused {
        Err(StableSwapError::PoolPaused)
    } else if amount_in < MIN_SWAP_AMOUNT {
        Err(StableSwapError::AmountTooSmall)
    } else if min_amount_out < amount_in * (10000 - MAX_SLIPPAGE_BPS) / 10000 {
        Err(StableSwapError::SlippageTooHigh)
    } else if now > deadline {
        Err(StableSwapError::TransactionExpired)
    } else if bags_vault_amount < p.bags_balance {
        Err(StableSwapError::VaultBalanceMismatch)
    } else if pump_vault_amount < p.pump_balance {
        Err(StableSwapError::VaultBalanceMismatch)
    } else {
        let fee = amount_in * MIGRATION_FEE_MILLI_BPS / 1_000_000;
        let amount_out = amount_in - fee;
        let admin_fee = fee * p.admin_fee_percent / 100;
        let out_balance = if bags_to_pump {
            p.pump_balance
        } else {
            p.bags_balance
        };
        let in_balance = if bags_to_pump {
            p.bags_balance
        } else {
            p.pump_balance
        };
        let admin_fees_out = if bags_to_pump {
            p.admin_fees_pump
        } else {
            p.admin_fees_bags
        };
        let volume_in = if bags_to_pump {
            p.total_volume_bags
        } else {
            p.total_volume_pump
        };
        if amount_out < min_amount_out {
            Err(StableSwapError::SlippageExceeded)
        } else if amount_out > out_balance {
            Err(StableSwapError::InsufficientLiquidity)
        } else if in_balance + amount_in > u64::MAX {
            Err(StableSwapError::MathOverflow)
        } else if admin_fees_out + admin_fee > u64::MAX {
            Err(StableSwapError::MathOverflow)
        } else if volume_in + amount_in > u64::MAX {
            Err(StableSwapError::MathOverflow)
        } else {
            Ok(
                (
                    StablePool {
                        bags_balance: if bags_to_pump {
                            (p.bags_balance + amount_in) as u64
                        } else {
                            (p.bags_balance - amount_out) as u64
                        },
                        pump_balance: if bags_to_pump {
                            (p.pump_balance - amount_out) as u64
                        } else {
                            (p.pump_balance + amount_in) as u64
                        },
                        admin_fees_bags: if bags_to_pump {
                            p.admin_fees_bags
                        } else {
                            (p.admin_fees_bags + admin_fee) as u64
                        },
                        admin_fees_pump: if bags_to_pump {
                            (p.admin_fees_pump + admin_fee) as u64
                        } else {
                            p.admin_fees_pump
                        },
                        total_volume_bags: if bags_to_pump {
                            (p.total_volume_bags + amount_in) as u64
                        } else {
                            p.total_volume_bags
                        },
                        total_volume_pump: if bags_to_pump {
                            p.total_volume_pump
                        } else {
                            (p.total_volume_pump + amount_in) as u64
                        },
                        ..p
                    },
                    amount_out as u64,
                ),
            )
        }
    }
}

/// On the migration path, a larger input never pays out less: of two
/// successful conversions against the same pool state, the one that puts
/// more in takes at least as much out. The fee keeps less than the whole of
/// any extra input, so the net output cannot fall.
pub proof fn lemma_migrate_output_monotone(
    p: StablePool,
    bags_vault_amount: u64,
    pump_vault_amount: u64,
    amount_in_1: u64,
    amount_in_2: u64,
    min_amount_out_1: u64,
    min_amount_out_2: u64,
    deadline: i64,
    now: i64,
    bags_to_pump: bool,
    q1: StablePool,
    out_1: u64,
    q2: StablePool,
    out_2: u64,
)
    requires
        amount_in_1 <= amount_in_2,
        spec_migrate(
            p,
            bags_vault_amount,
            pump_vault_amount,
            amount_in_1,
            min_amount_out_1,
            deadline,
            now,
            bags_to_pump,
        ) == Ok::<(StablePool, u64), StableSwapError>((q1, out_1)),
        spec_migrate(
            p,
            bags_vault_amount,
            pump_vault_amount,
            amount_in_2,
            min_amount_out_2,
            deadline,
            now,
            bags_to_pump,
        ) == Ok::<(StablePool, u64), StableSwapError>((q2, out_2)),
    ensures
        out_1 <= out_2,
{
    let c = MIGRATION_FEE_MILLI_BPS as int;
    let m = 1_000_000;
    let a1 = amount_in_1 as int;
    let a2 = amount_in_2 as int;
    let delta = a2 - a1;
    lemma_mul_div_le(a1, c, m);
    lemma_mul_div_le(a2, c, m);
    assert(a2 * c == a1 * c + delta * c) by (nonlinear_arith)
        requires
            delta == a2 - a1,
    ;
    vstd::arithmetic::mul::lemma_mul_inequality(c, m, delta);
    vstd::arithmetic::div_mod::lemma_div_is_ordered(a2 * c, a1 * c + delta * m, m);
    vstd::arithmetic::div_mod::lemma_hoist_over_denominator(a1 * c, delta, m as nat);
    assert(a2 * c / m <= a1 * c / m + delta);
}

impl StablePool {
    fn do_migrate(
        &mut self,
        bags_vault_amount: u64,
        pump_vault_amount: u64,
        amount_in: u64,
        min_amount_out: u64,
        deadline: i64,
        now: i64,
        bags_to_pump: bool,
    ) -> (r: Result<u64, StableSwapError>)
        requires
            old(self).wf(),
        ensures
            final(self).wf(),
            match spec_migrate(
                *old(self),
                bags_vault_amount,
                pump_vault_amount,
                amount_in,
                min_amount_out,
                deadline,
                now,
                bags_to_pump,
            ) {
                Ok((p, out)) => r == Ok::<u64, StableSwapError>(out) && *final(self) == p,
                Err(e) => r == Err::<u64, StableSwapError>(e) && *final(self) == *old(self),
            },
    {
        if self.paused {
            return Err(StableSwapError::PoolPaused);
        }
        if amount_in < MIN_SWAP_AMOUNT {
            return Err(StableSwapError::AmountTooSmall);
        }
        proof {
            lemma_mul_div_le(amount_in as int, (10000 - MAX_SLIPPAGE_BPS) as int, 10000);
        }
        let min_allowed: u64 = ((amount_in as u128) * ((10000 - MAX_SLIPPAGE_BPS) as u128)
            / 10000) as u64;
        if min_amount_out < min_allowed {
            return Err(StableSwapError::SlippageTooHigh);
        }
        if now > deadline {
            return Err(StableSwapError::TransactionExpired);
        }
        if bags_vault_amount < self.bags_balance {
            return Err(StableSwapError::VaultBalanceMismatch);
        }
        if pump_vault_amount < self.pump_balance {
            return Err(StableSwapError::VaultBalanceMismatch);
        }
        proof {
            lemma_mul_div_le(amount_in as int, MIGRATION_FEE_MILLI_BPS as int, 1_000_000);
        }
        let fee: u64 = ((amount_in as u128) * (MIGRATION_FEE_MILLI_BPS as u128) / 1_000_000) as u64;
        let amount_out: u64 = amount_in - fee;
        proof {
            lemma_mul_div_le(fee as int, self.admin_fee_percent as int, 100);
        }
        let admin_fee: u64 = ((fee as u128) * (self.admin_fee_percent as u128) / 100) as u64;
        if amount_out < min_amount_out {
            return Err(StableSwapError::SlippageExceeded);
        }
        let out_balance: u64 = if bags_to_pump {
            self.pump_balance
        } else {
            self.bags_balance
        };
        if amount_out > out_balance {
            return Err(StableSwapError::InsufficientLiquidity);
        }
        let in_balance: u64 = if bags_to_pump {
            self.bags_balance
        } else {
            self.pump_balance
        };
        let new_in_balance: u64 = match in_balance.checked_add(amount_in) {
            Some(v) => v,
            None => {
                return Err(StableSwapError::MathOverflow);
            },
        };
        let admin_fees_out: u64 = if bags_to_pump {
            self.admin_fees_pump
        } else {
            self.admin_fees_bags
        };
        let new_admin_fees_out: u64 = match admin_fees_out.checked_add(admin_fee) {
            Some(v) => v,
            None => {
                return Err(StableSwapError::MathOverflow);
            },
        };
        let volume_in: u64 = if bags_to_pump {
            self.total_volume_bags
        } else {
            self.total_volume_pump
        };
        let new_volume_in: u64 = match volume_in.checked_add(amount_in) {
            Some(v) => v,
            None => {
                return Err(StableSwapError::MathOverflow);
            },
        };
        let new_out_balance: u64 = out_balance - amount_out;
        if bags_to_pump {
            self.bags_balance = new_in_balance;
            self.pump_balance = new_out_balance;
            self.admin_fees_pump = new_admin_fees_out;
            self.total_volume_bags = new_volume_in;
        } else {
            self.pump_balance = new_in_balance;
            self.bags_balance = new_out_balance;
            self.admin_fees_bags = new_admin_fees_out;
            self.total_volume_pump = new_volume_in;
        }
        Ok(amount_out)
    }

    /// Converts the first asset to the second at the fixed migration rate,
    /// less the flat fee. Returns the output the ledger must pay out.
    pub fn migrate_bags_to_pump(
        &mut self,
        bags_vault_amount: u64,
        pump_vault_amount: u64,
        amount_in: u64,
        min_amount_out: u64,
        deadline: i64,
        now: i64,
    ) -> (r: Result<u64, StableSwapError>)
        requires
            old(self).wf(),
        ensures
            final(self).wf(),
            match spec_migrate(
                *old(self),
                bags_vault_amount,
                pump_vault_amount,
                amount_in,
                min_amount_out,
                deadline,
                now,
                true,
            ) {
                Ok((p, out)) => r == Ok::<u64, StableSwapError>(out) && *final(self) == p,
                Err(e) => r == Err::<u64, StableSwapError>(e) && *final(self) == *old(self),
            },
    {
        self.do_migrate(
            bags_vault_amount,
            pump_vault_amount,
            amount_in,
            min_amount_out,
            deadline,
            now,
            true,
        )
    }

    /// Converts the second asset to the first at the fixed migration rate,
    /// less the flat fee. Returns the output the ledger must pay out.
    pub fn migrate_pump_to_bags(
        &mut self,
        bags_vault_amount: u64,
        pump_vault_amount: u64,
        amount_in: u64,
        min_amount_out: u64,
        deadline: i64,
        now: i64,
    ) -> (r: Result<u64, StableSwapError>)
        requires
            old(self).wf(),
        ensures
            final(self).wf(),
            match spec_migrate(
                *old(self),
                bags_vault_amount,
                pump_vault_amount,
                amount_in,
                min_amount_out,
                deadline,
                now,
                false,
            ) {
                Ok((p, out)) => r == Ok::<u64, StableSwapError>(out) && *final(self) == p,
                Err(e) => r == Err::<u64, StableSwapError>(e) && *final(self) == *old(self),
            },
    {
        self.do_migrate(
            bags_vault_amount,
            pump_vault_amount,
            amount_in,
            min_amount_out,
            deadline,
            now,
            false,
        )
    }
}

} // verus!
