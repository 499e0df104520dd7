use vstd::prelude::*;

use crate::amp::get_current_amplification;
use crate::amp::lemma_interpolation_bounds;
use crate::amp::spec_current_amplification;
use crate::arith::lemma_mul_div_le;
use crate::arith::lemma_u64_mul_fits;
use crate::error::StableSwapError;
use crate::pool::StablePool;
use crate::solver::calculate_d;
use crate::solver::lemma_d_equal_balances;
use crate::solver::spec_calculate_d;
use vstd::arithmetic::div_mod::lemma_div_is_ordered;
use vstd::arithmetic::div_mod::lemma_div_multiples_vanish;
use vstd::arithmetic::div_mod::lemma_div_multiples_vanish_quotient;
use vstd::arithmetic::div_mod::lemma_div_of0;
use vstd::arithmetic::div_mod::lemma_div_pos_is_pos;
use vstd::arithmetic::div_mod::lemma_fundamental_div_mod;
use vstd::arithmetic::div_mod::lemma_mod_bound;
use vstd::arithmetic::mul::lemma_mul_upper_bound;
use crate::MINIMUM_LIQUIDITY;
use crate::MIN_INITIAL_DEPOSIT;
use crate::MAX_SLIPPAGE_BPS;
use crate::MIN_SWAP_AMOUNT;

verus! {

// ─────────────────────────────────────────────────────────────────────────────
// Liquidity manager: deposits and withdrawals against the pool, priced by the
// invariant. Each operation's outcome — the exact error, or the exact new
// pool record and the amounts the ledger must move — is a function of the old
// record and the arguments, written out by the spec functions below.
// ─────────────────────────────────────────────────────────────────────────────

/// The pool-share amount a deposit mints and the imbalance fee it pays on
/// each asset, given the invariant before (`d0`) and after (`d1`) the
/// deposit. On the first deposit the minted amount is `d1` less the locked
/// minimum; afterwards it is proportional to the invariant's growth, and the
/// fee on each asset is the pool's trading fee applied to the distance
/// between the new balance and the ideal balance `old * d1 / d0`.
pub open spec fn spec_mint_amounts(
    p: StablePool,
    d0: u128,
    d1: u128,
    new_bags: u64,
    new_pump: u64,
) -> Result<(u64, u64, u64), StableSwapError> {
    let d0i = d0 as int;
    let d1i = d1 as int;
    if p.lp_supply == 0 {
        if d1i < MINIMUM_LIQUIDITY {
            Err(StableSwapError::InsufficientLiquidity)
        } else if d1i - MINIMUM_LIQUIDITY > u64::MAX {
            Err(StableSwapError::MathOverflow)
        } else {
            Ok(((d1i - MINIMUM_LIQUIDITY) as u64, 0u64, 0u64))
        }
    } else {
        if (d1i - d0i) * p.lp_supply > u128::MAX {
            Err(StableSwapError::MathOverflow)
        } else if d0i == 0 {
            Err(StableSwapError::MathOverflow)
        } else if (d1i - d0i) * p.lp_supply / d0i > u64::MAX {
            Err(StableSwapError::MathOverflow)
        } else if p.bags_balance * d1i > u128::MAX {
            Err(StableSwapError::MathOverflow)
        } else if p.bags_balance * d1i / d0i > u64::MAX {
            Err(StableSwapError::MathOverflow)
        } else if p.pump_balance * d1i > u128::MAX {
            Err(StableSwapError::MathOverflow)
        } else if p.pump_balance * d1i / d0i > u64::MAX {
            Err(StableSwapError::MathOverflow)
        } else {
            let lp = (d1i - d0i) * p.lp_supply / d0i;
            let ideal_bags = p.bags_balance * d1i / d0i;
            let ideal_pump = p.pump_balance * d1i / d0i;
            let bags_diff = if new_bags > ideal_bags {
                new_bags - ideal_bags
            } else {
                ideal_bags - new_bags
            };
            let pump_diff = if new_pump > ideal_pump {
                new_pump - ideal_pump
            } else {
                ideal_pump - new_pump
            };
            let fee_bags = bags_diff * p.swap_fee_bps / 10000;
            let fee_pump = pump_diff * p.swap_fee_bps / 10000;
            Ok((lp as u64, fee_bags as u64, fee_pump as u64))
        }
    }
}

/// What `add_liquidity` does, for every input: the checks in order, then the
/// new record and the minted pool-share amount.
pub open spec fn spec_add_liquidity(
    p: StablePool,
    bags_vault_amount: u64,
    pump_vault_amount: u64,
    bags_amount: u64,
    pump_amount: u64,
    min_lp_amount: u64,
    now: i64,
) -> Result<(StablePool, u64), StableSwapError> {
    if p.paused {
        Err(StableSwapError::PoolPaused)
    } else if bags_amount == 0 && pump_amount == 0 {
        Err(StableSwapError::ZeroAmount)
    } else if p.lp_supply == 0 && !(bags_amount >= MIN_INITIAL_DEPOSIT && pump_amount
        >= MIN_INITIAL_DEPOSIT) {
        Err(StableSwapError::InitialDepositTooSmall)
    } else if bags_vault_amount < p.bags_balance {
        Err(StableSwapError::VaultBalanceMismatch)
    } else if pump_vault_amount < p.pump_balance {
        Err(StableSwapError::VaultBalanceMismatch)
    } else {
        let amp = spec_current_amplification(p, now) as u64;
        match spec_calculate_d(p.bags_balance, p.pump_balance, amp) {
            Err(e) => Err(e),
            Ok(d0) => if p.bags_balance + bags_amount > u64::MAX {
                Err(StableSwapError::MathOverflow)
            } else if p.pump_balance + pump_amount > u64::MAX {
                Err(StableSwapError::MathOverflow)
            } else {
                let new_bags = (p.bags_balance + bags_amount) as u64;
                let new_pump = (p.pump_balance + pump_amount) as u64;
                match spec_calculate_d(new_bags, new_pump, amp) {
                    Err(e) => Err(e),
                    Ok(d1) => if d1 <= d0 {
                        Err(StableSwapError::InvariantViolation)
                    } else {
                        match spec_mint_amounts(p, d0, d1, new_bags, new_pump) {
                            Err(e) => Err(e),
                            Ok((lp, fee_bags, fee_pump)) => if lp < min_lp_amount {
                                Err(StableSwapError::SlippageExceeded)
                            } else {
                                let new_supply = if p.lp_supply == 0 {
                                    MINIMUM_LIQUIDITY + lp
                                } else {
                                    p.lp_supply + lp
                                };
                                let inc_bags = fee_bags * p.admin_fee_percent / 100;
                                let inc_pump = fee_pump * p.admin_fee_percent / 100;
                                if new_supply > u64::MAX {
                                    Err(StableSwapError::MathOverflow)
                                } else if p.admin_fees_bags + inc_bags > u64::MAX {
                                    Err(StableSwapError::MathOverflow)
                                } else if p.admin_fees_pump + inc_pump > u64::MAX {
                                    Err(StableSwapError::MathOverflow)
                                } else {
                                    Ok(
                                        (
                                            StablePool {
                                                bags_balance: new_bags,
                                                pump_balance: new_pump,
                                                lp_supply: new_supply as u64,
                                                admin_fees_bags: (p.admin_fees_bags
                                                    + inc_bags) as u64,
                                                admin_fees_pump: (p.admin_fees_pump
                                                    + inc_pump) as u64,
                                                ..p
                                            },
                                            lp,
                                        ),
                                    )
                                }
                            },
                        }
                    },
                }
            },
        }
    }
}

impl StablePool {
    /// Adds liquidity in any ratio of the two assets. The caller's deposits
    /// are priced by the invariant's growth; a lopsided deposit also pays an
    /// imbalance fee. Returns the minted pool-share amount; the ledger must
    /// move `bags_amount` and `pump_amount` in and mint the result to the
    /// caller. On the first deposit `MINIMUM_LIQUIDITY` shares are locked
    /// forever on top of the minted amount. The invariant after a successful
    /// call is strictly above the invariant before it.
    pub fn add_liquidity(
        &mut self,
        bags_vault_amount: u64,
        pump_vault_amount: u64,
        bags_amount: u64,
        pump_amount: u64,
        min_lp_amount: u64,
        now: i64,
    ) -> (r: Result<u64, StableSwapError>)
        requires
            old(self).wf(),
        ensures
            final(self).wf(),
            match spec_add_liquidity(
                *old(self),
                bags_vault_amount,
                pump_vault_amount,
                bags_amount,
                pump_amount,
                min_lp_amount,
                now,
            ) {
                Ok((p, lp)) => r == Ok::<u64, StableSwapError>(lp) && *final(self) == p,
                Err(e) => r == Err::<u64, StableSwapError>(e) && *final(self) == *old(self),
            },
    {
        if self.paused {
            return Err(StableSwapError::PoolPaused);
        }
        if bags_amount == 0 && pump_amount == 0 {
            return Err(StableSwapError::ZeroAmount);
        }
        if self.lp_supply == 0 {
            if !(bags_amount >= MIN_INITIAL_DEPOSIT && pump_amount >= MIN_INITIAL_DEPOSIT) {
                return Err(StableSwapError::InitialDepositTooSmall);
            }
        }
        if bags_vault_amount < self.bags_balance {
            return Err(StableSwapError::VaultBalanceMismatch);
        }
        if pump_vault_amount < self.pump_balance {
            return Err(StableSwapError::VaultBalanceMismatch);
        }
        let amp: u64 = get_current_amplification(self, now);
        let d0: u128 = match calculate_d(self.bags_balance, self.pump_balance, amp) {
            Ok(v) => v,
            Err(e) => {
                return Err(e);
            },
        };
        let new_bags: u64 = match self.bags_balance.checked_add(bags_amount) {
            Some(v) => v,
            None => {
                return Err(StableSwapError::MathOverflow);
            },
        };
        let new_pump: u64 = match self.pump_balance.checked_add(pump_amount) {
            Some(v) => v,
            None => {
                return Err(StableSwapError::MathOverflow);
            },
        };
        let d1: u128 = match calculate_d(new_bags, new_pump, amp) {
            Ok(v) => v,
            Err(e) => {
                return Err(e);
            },
        };
        if d1 <= d0 {
            return Err(StableSwapError::InvariantViolation);
        }
        let (lp_amount, fee_bags, fee_pump): (u64, u64, u64) = if self.lp_supply == 0 {
            let initial_lp: u128 = match d1.checked_sub(MINIMUM_LIQUIDITY as u128) {
                Some(v) => v,
                None => {
                    return Err(StableSwapError::InsufficientLiquidity);
                },
            };
            if initial_lp > u64::MAX as u128 {
                return Err(StableSwapError::MathOverflow);
            }
            (initial_lp as u64, 0u64, 0u64)
        } else {
            let lp_num: u128 = match (d1 - d0).checked_mul(self.lp_supply as u128) {
                Some(v) => v,
                None => {
                    return Err(StableSwapError::MathOverflow);
                },
            };
            if d0 == 0 {
                return Err(StableSwapError::MathOverflow);
            }
            let lp128: u128 = lp_num / d0;
            if lp128 > u64::MAX as u128 {
                return Err(StableSwapError::MathOverflow);
            }
            let ideal_bags_num: u128 = match (self.bags_balance as u128).checked_mul(d1) {
                Some(v) => v,
                None => {
                    return Err(StableSwapError::MathOverflow);
                },
            };
            let ideal_bags128: u128 = ideal_bags_num / d0;
            if ideal_bags128 > u64::MAX as u128 {
                return Err(StableSwapError::MathOverflow);
            }
            let ideal_pump_num: u128 = match (self.pump_balance as u128).checked_mul(d1) {
                Some(v) => v,
                None => {
                    return Err(StableSwapError::MathOverflow);
                },
            };
            let ideal_pump128: u128 = ideal_pump_num / d0;
            if ideal_pump128 > u64::MAX as u128 {
                return Err(StableSwapError::MathOverflow);
            }
            let ideal_bags: u64 = ideal_bags128 as u64;
            let ideal_pump: u64 = ideal_pump128 as u64;
            let bags_diff: u64 = if new_bags > ideal_bags {
                new_bags - ideal_bags
            } else {
                ideal_bags - new_bags
            };
            let pump_diff: u64 = if new_pump > ideal_pump {
                new_pump - ideal_pump
            } else {
                ideal_pump - new_pump
            };
            proof {
                lemma_mul_div_le(bags_diff as int, self.swap_fee_bps as int, 10000);
                lemma_mul_div_le(pump_diff as int, self.swap_fee_bps as int, 10000);
            }
            let fee_b: u64 = ((bags_diff as u128) * (self.swap_fee_bps as u128) / 10000) as u64;
            let fee_p: u64 = ((pump_diff as u128) * (self.swap_fee_bps as u128) / 10000) as u64;
            (lp128 as u64, fee_b, fee_p)
        };
        if lp_amount < min_lp_amount {
            return Err(StableSwapError::SlippageExceeded);
        }
        let new_supply: u64 = if self.lp_supply == 0 {
            match MINIMUM_LIQUIDITY.checked_add(lp_amount) {
                Some(v) => v,
                None => {
                    return Err(StableSwapError::MathOverflow);
                },
            }
        } else {
            match self.lp_supply.checked_add(lp_amount) {
                Some(v) => v,
                None => {
                    return Err(StableSwapError::MathOverflow);
                },
            }
        };
        proof {
            lemma_mul_div_le(fee_bags as int, self.admin_fee_percent as int, 100);
            lemma_mul_div_le(fee_pump as int, self.admin_fee_percent as int, 100);
        }
        let inc_bags: u64 = ((fee_bags as u128) * (self.admin_fee_percent as u128) / 100) as u64;
        let inc_pump: u64 = ((fee_pump as u128) * (self.admin_fee_percent as u128) / 100) as u64;
        let new_admin_bags: u64 = match self.admin_fees_bags.checked_add(inc_bags) {
            Some(v) => v,
            None => {
                return Err(StableSwapError::MathOverflow);
            },
        };
        let new_admin_pump: u64 = match self.admin_fees_pump.checked_add(inc_pump) {
            Some(v) => v,
            None => {
                return Err(StableSwapError::MathOverflow);
            },
        };
        self.bags_balance = new_bags;
        self.pump_balance = new_pump;
        self.lp_supply = new_supply;
        self.admin_fees_bags = new_admin_bags;
        self.admin_fees_pump = new_admin_pump;
        Ok(lp_amount)
    }
}

/// What `remove_liquidity` does, for every input: the checks in order, then
/// the new record and the two amounts paid out. There is deliberately no
/// pause check: withdrawal is never blockable. The exit fee scales with how
/// far the pool is from an even split, from zero at an even pool up to the
/// full swap fee at total imbalance; it stays in the pool apart from the
/// admin's percentage cut.
pub open spec fn spec_remove_liquidity(
    p: StablePool,
    lp_amount: u64,
    min_bags_amount: u64,
    min_pump_amount: u64,
) -> Result<(StablePool, u64, u64), StableSwapError> {
    if lp_amount == 0 {
        Err(StableSwapError::ZeroAmount)
    } else if p.lp_supply <= lp_amount {
        Err(StableSwapError::InsufficientLiquidity)
    } else if p.lp_supply - lp_amount < MINIMUM_LIQUIDITY {
        Err(StableSwapError::InsufficientLiquidity)
    } else if p.bags_balance + p.pump_balance > u64::MAX {
        Err(StableSwapError::MathOverflow)
    } else {
        let bags_prop = p.bags_balance * lp_amount / (p.lp_supply as int);
        let pump_prop = p.pump_balance * lp_amount / (p.lp_supply as int);
        let total = p.bags_balance + p.pump_balance;
        let fee_bags = if total > 0 {
            let ratio = p.bags_balance * 10000 / total;
            let imbalance = if ratio > 5000 {
                ratio - 5000
            } else {
                5000 - ratio
            };
            bags_prop * (p.swap_fee_bps * imbalance / 5000) / 10000
        } else {
            0
        };
        let fee_pump = if total > 0 {
            let ratio = p.bags_balance * 10000 / total;
            let imbalance = if ratio > 5000 {
                ratio - 5000
            } else {
                5000 - ratio
            };
            pump_prop * (p.swap_fee_bps * imbalance / 5000) / 10000
        } else {
            0
        };
        let bags_out = if fee_bags <= bags_prop {
            bags_prop - fee_bags
        } else {
            0
        };
        let pump_out = if fee_pump <= pump_prop {
            pump_prop - fee_pump
        } else {
            0
        };
        if bags_out < min_bags_amount {
            Err(StableSwapError::SlippageExceeded)
        } else if pump_out < min_pump_amount {
            Err(StableSwapError::SlippageExceeded)
        } else {
            let admin_bags = fee_bags * p.admin_fee_percent / 100;
            let admin_pump = fee_pump * p.admin_fee_percent / 100;
            if p.admin_fees_bags + admin_bags > u64::MAX {
                Err(StableSwapError::MathOverflow)
            } else if p.admin_fees_pump + admin_pump > u64::MAX {
                Err(StableSwapError::MathOverflow)
            } else {
                Ok(
                    (
                        StablePool {
                            lp_supply: (p.lp_supply - lp_amount) as u64,
                            bags_balance: (p.bags_balance - bags_prop) as u64,
                            pump_balance: (p.pump_balance - pump_prop) as u64,
                            admin_fees_bags: (p.admin_fees_bags + admin_bags) as u64,
                            admin_fees_pump: (p.admin_fees_pump + admin_pump) as u64,
                            ..p
                        },
                        bags_out as u64,
                        pump_out as u64,
                    ),
                )
            }
        }
    }
}

impl StablePool {
    /// Burns `lp_amount` pool shares for proportional amounts of both assets,
    /// less the imbalance-scaled exit fee, which stays in the pool for the
    /// remaining holders apart from the admin's cut. Never blocked by the
    /// pause flag, and never allowed to take the supply below the locked
    /// minimum. Returns the two amounts the ledger must pay out.
    pub fn remove_liquidity(
        &mut self,
        lp_amount: u64,
        min_bags_amount: u64,
        min_pump_amount: u64,
    ) -> (r: Result<(u64, u64), StableSwapError>)
        requires
            old(self).wf(),
        ensures
            final(self).wf(),
            match spec_remove_liquidity(*old(self), lp_amount, min_bags_amount, min_pump_amount) {
                Ok((p, bags_out, pump_out)) => r == Ok::<(u64, u64), StableSwapError>(
                    (bags_out, pump_out),
                ) && *final(self) == p,
                Err(e) => r == Err::<(u64, u64), StableSwapError>(e) && *final(self) == *old(self),
            },
    {
        if lp_amount == 0 {
            return Err(StableSwapError::ZeroAmount);
        }
        if self.lp_supply <= lp_amount {
            return Err(StableSwapError::InsufficientLiquidity);
        }
        if self.lp_supply - lp_amount < MINIMUM_LIQUIDITY {
            return Err(StableSwapError::InsufficientLiquidity);
        }
        let total: u64 = match self.bags_balance.checked_add(self.pump_balance) {
            Some(v) => v,
            None => {
                return Err(StableSwapError::MathOverflow);
            },
        };
        proof {
            lemma_u64_mul_fits(self.bags_balance, lp_amount);
            lemma_u64_mul_fits(self.pump_balance, lp_amount);
            lemma_mul_div_le(self.bags_balance as int, lp_amount as int, self.lp_supply as int);
            lemma_mul_div_le(self.pump_balance as int, lp_amount as int, self.lp_supply as int);
        }
        let bags_prop: u64 = ((self.bags_balance as u128) * (lp_amount as u128) / (self.lp_supply
            as u128)) as u64;
        let pump_prop: u64 = ((self.pump_balance as u128) * (lp_amount as u128) / (self.lp_supply
            as u128)) as u64;
        let (bags_out, pump_out, fee_bags, fee_pump): (u64, u64, u64, u64) = if total > 0 {
            proof {
                lemma_mul_div_le(10000, self.bags_balance as int, total as int);
            }
            let ratio: u128 = (self.bags_balance as u128) * 10000 / (total as u128);
            let imbalance: u128 = if ratio > 5000 {
                ratio - 5000
            } else {
                5000 - ratio
            };
            proof {
                vstd::arithmetic::mul::lemma_mul_upper_bound(
                    self.swap_fee_bps as int,
                    100,
                    imbalance as int,
                    5000,
                );
            }
            let eff_fee_bps: u128 = (self.swap_fee_bps as u128) * imbalance / 5000;
            proof {
                lemma_mul_div_le(self.swap_fee_bps as int, imbalance as int, 5000);
                lemma_mul_div_le(bags_prop as int, eff_fee_bps as int, 10000);
                lemma_mul_div_le(pump_prop as int, eff_fee_bps as int, 10000);
            }
            let fee_b: u64 = ((bags_prop as u128) * eff_fee_bps / 10000) as u64;
            let fee_p: u64 = ((pump_prop as u128) * eff_fee_bps / 10000) as u64;
            let out_b: u64 = if fee_b <= bags_prop {
                bags_prop - fee_b
            } else {
                0
            };
            let out_p: u64 = if fee_p <= pump_prop {
                pump_prop - fee_p
            } else {
                0
            };
            (out_b, out_p, fee_b, fee_p)
        } else {
            (bags_prop, pump_prop, 0u64, 0u64)
        };
        if bags_out < min_bags_amount {
            return Err(StableSwapError::SlippageExceeded);
        }
        if pump_out < min_pump_amount {
            return Err(StableSwapError::SlippageExceeded);
        }
        proof {
            lemma_mul_div_le(fee_bags as int, self.admin_fee_percent as int, 100);
            lemma_mul_div_le(fee_pump as int, self.admin_fee_percent as int, 100);
        }
        let admin_bags: u64 = ((fee_bags as u128) * (self.admin_fee_percent as u128) / 100) as u64;
        let admin_pump: u64 = ((fee_pump as u128) * (self.admin_fee_percent as u128) / 100) as u64;
        let new_admin_bags: u64 = match self.admin_fees_bags.checked_add(admin_bags) {
            Some(v) => v,
            None => {
                return Err(StableSwapError::MathOverflow);
            },
        };
        let new_admin_pump: u64 = match self.admin_fees_pump.checked_add(admin_pump) {
            Some(v) => v,
            None => {
                return Err(StableSwapError::MathOverflow);
            },
        };
        self.lp_supply = self.lp_supply - lp_amount;
        self.bags_balance = self.bags_balance - bags_prop;
        self.pump_balance = self.pump_balance - pump_prop;
        self.admin_fees_bags = new_admin_bags;
        self.admin_fees_pump = new_admin_pump;
        Ok((bags_out, pump_out))
    }
}

/// What `add_liquidity_single_sided` does, for every input: the migration
/// pool prices both assets equally, so the minted share is proportional to
/// the deposit's share of the total pool value. A first deposit mints the
/// amount less `MINIMUM_LIQUIDITY` and locks the minimum in the supply, as
/// the two-sided path does. A drained pool with outstanding shares accepts
/// no deposit, and the caller's own minimum must sit within the maximum
/// slippage band of the expected result.
pub open spec fn spec_add_liquidity_single_sided(
    p: StablePool,
    amount: u64,
    is_bags: bool,
    min_lp_amount: u64,
) -> Result<(StablePool, u64), StableSwapError> {
    if p.paused {
        Err(StableSwapError::PoolPaused)
    } else if amount == 0 {
        Err(StableSwapError::ZeroAmount)
    } else if amount < MIN_SWAP_AMOUNT {
        Err(StableSwapError::AmountTooSmall)
    } else if p.bags_balance + p.pump_balance > u64::MAX {
        Err(StableSwapError::MathOverflow)
    } else {
        let total = p.bags_balance + p.pump_balance;
        if p.lp_supply == 0 && amount < MIN_INITIAL_DEPOSIT {
            Err(StableSwapError::InitialDepositTooSmall)
        } else if p.lp_supply != 0 && total == 0 {
            Err(StableSwapError::InsufficientLiquidity)
        } else if p.lp_supply != 0 && amount * p.lp_supply / total > u64::MAX {
            Err(StableSwapError::MathOverflow)
        } else {
            let lp = if p.lp_supply == 0 {
                amount - MINIMUM_LIQUIDITY
            } else {
                amount * p.lp_supply / total
            };
            if lp < min_lp_amount {
                Err(StableSwapError::SlippageExceeded)
            } else if p.lp_supply > 0 && min_lp_amount < lp * (10000 - MAX_SLIPPAGE_BPS) / 10000 {
                Err(StableSwapError::SlippageTooHigh)
            } else if is_bags && p.bags_balance + amount > u64::MAX {
                Err(StableSwapError::MathOverflow)
            } else if !is_bags && p.pump_balance + amount > u64::MAX {
                Err(StableSwapError::MathOverflow)
            } else {
                let new_supply = if p.lp_supply == 0 {
                    MINIMUM_LIQUIDITY + lp
                } else {
                    p.lp_supply + lp
                };
                if new_supply > u64::MAX {
                    Err(StableSwapError::MathOverflow)
                } else {
                    Ok(
                        (
                            StablePool {
                                bags_balance: if is_bags {
                                    (p.bags_balance + amount) as u64
                                } else {
                                    p.bags_balance
                                },
                                pump_balance: if is_bags {
                                    p.pump_balance
                                } else {
                                    (p.pump_balance + amount) as u64
                                },
                                lp_supply: new_supply as u64,
                                ..p
                            },
                            lp as u64,
                        ),
                    )
                }
            }
        }
    }
}

impl StablePool {
    /// Adds liquidity with only one of the two assets, priced by total pool
    /// value as the migration pool treats both assets as equal in value.
    /// On an empty pool this acts as a first deposit, with the same minimum
    /// and the same locked amount. Returns the minted pool-share amount.
    pub fn add_liquidity_single_sided(
        &mut self,
        amount: u64,
        is_bags: bool,
        min_lp_amount: u64,
    ) -> (r: Result<u64, StableSwapError>)
        requires
            old(self).wf(),
        ensures
            final(self).wf(),
            match spec_add_liquidity_single_sided(*old(self), amount, is_bags, min_lp_amount) {
                Ok((p, lp)) => r == Ok::<u64, StableSwapError>(lp) && *final(self) == p,
                Err(e) => r == Err::<u64, StableSwapError>(e) && *final(self) == *old(self),
            },
    {
        if self.paused {
            return Err(StableSwapError::PoolPaused);
        }
        if amount == 0 {
            return Err(StableSwapError::ZeroAmount);
        }
        if amount < MIN_SWAP_AMOUNT {
            return Err(StableSwapError::AmountTooSmall);
        }
        let total: u64 = match self.bags_balance.checked_add(self.pump_balance) {
            Some(v) => v,
            None => {
                return Err(StableSwapError::MathOverflow);
            },
        };
        let lp_amount: u64 = if self.lp_supply == 0 {
            if amount < MIN_INITIAL_DEPOSIT {
                return Err(StableSwapError::InitialDepositTooSmall);
            }
            amount - MINIMUM_LIQUIDITY
        } else if total == 0 {
            return Err(StableSwapError::InsufficientLiquidity);
        } else {
            proof {
                lemma_u64_mul_fits(amount, self.lp_supply);
            }
            let lp128: u128 = (amount as u128) * (self.lp_supply as u128) / (total as u128);
            if lp128 > u64::MAX as u128 {
                return Err(StableSwapError::MathOverflow);
            }
            lp128 as u64
        };
        if lp_amount < min_lp_amount {
            return Err(StableSwapError::SlippageExceeded);
        }
        if self.lp_supply > 0 {
            proof {
                lemma_mul_div_le(lp_amount as int, (10000 - MAX_SLIPPAGE_BPS) as int, 10000);
            }
            let min_allowed: u64 = ((lp_amount as u128) * ((10000 - MAX_SLIPPAGE_BPS) as u128)
                / 10000) as u64;
            if min_lp_amount < min_allowed {
                return Err(StableSwapError::SlippageTooHigh);
            }
        }
        let new_supply: u64 = if self.lp_supply == 0 {
            match MINIMUM_LIQUIDITY.checked_add(lp_amount) {
                Some(v) => v,
                None => {
                    return Err(StableSwapError::MathOverflow);
                },
            }
        } else {
            match self.lp_supply.checked_add(lp_amount) {
                Some(v) => v,
                None => {
                    return Err(StableSwapError::MathOverflow);
                },
            }
        };
        if is_bags {
            let new_bags: u64 = match self.bags_balance.checked_add(amount) {
                Some(v) => v,
                None => {
                    return Err(StableSwapError::MathOverflow);
                },
            };
            self.bags_balance = new_bags;
        } else {
            let new_pump: u64 = match self.pump_balance.checked_add(amount) {
                Some(v) => v,
                None => {
                    return Err(StableSwapError::MathOverflow);
                },
            };
            self.pump_balance = new_pump;
        }
        self.lp_supply = new_supply;
        Ok(lp_amount)
    }
}

/// A successful two-sided deposit always grows the invariant: the D computed
/// from the new balances is strictly above the D computed from the old ones,
/// at the amplification in effect at deposit time. A deposit on which D
/// would not grow is rejected with `InvariantViolation` instead.
pub proof fn lemma_add_liquidity_grows_invariant(
    p: StablePool,
    bags_vault_amount: u64,
    pump_vault_amount: u64,
    bags_amount: u64,
    pump_amount: u64,
    min_lp_amount: u64,
    now: i64,
    q: StablePool,
    lp: u64,
)
    requires
        spec_add_liquidity(
            p,
            bags_vault_amount,
            pump_vault_amount,
            bags_amount,
            pump_amount,
            min_lp_amount,
            now,
        ) == Ok::<(StablePool, u64), StableSwapError>((q, lp)),
    ensures
        ({
            let amp = spec_current_amplification(p, now) as u64;
            &&& spec_calculate_d(p.bags_balance, p.pump_balance, amp) matches Ok(d0)
            &&& spec_calculate_d(q.bags_balance, q.pump_balance, amp) matches Ok(d1)
            &&& {
                let d0 = spec_calculate_d(p.bags_balance, p.pump_balance, amp)->Ok_0;
                let d1 = spec_calculate_d(q.bags_balance, q.pump_balance, amp)->Ok_0;
                d1 > d0
            }
        }),
{
}

/// Withdrawing from an evenly balanced pool and immediately redepositing the
/// exact amounts paid out never mints more pool shares than were burned: the
/// round trip cannot be a source of shares. Stated for the balanced pool,
/// where the exit fee is zero and the invariant of each state is known
/// exactly; the bound on the balance keeps the solver's products inside
/// `u128`.
pub proof fn lemma_balanced_round_trip_never_profits(
    p: StablePool,
    lp_amount: u64,
    min_bags_amount: u64,
    min_pump_amount: u64,
    q: StablePool,
    bags_out: u64,
    pump_out: u64,
    bags_vault_amount: u64,
    pump_vault_amount: u64,
    min_lp_amount: u64,
    now: i64,
    q2: StablePool,
    minted: u64,
)
    requires
        p.wf(),
        p.bags_balance == p.pump_balance,
        p.bags_balance <= 50_000_000_000_000_000,
        spec_remove_liquidity(p, lp_amount, min_bags_amount, min_pump_amount) == Ok::<
            (StablePool, u64, u64),
            StableSwapError,
        >((q, bags_out, pump_out)),
        spec_add_liquidity(
            q,
            bags_vault_amount,
            pump_vault_amount,
            bags_out,
            pump_out,
            min_lp_amount,
            now,
        ) == Ok::<(StablePool, u64), StableSwapError>((q2, minted)),
    ensures
        minted <= lp_amount,
{
    let b = p.bags_balance as int;
    let s = p.lp_supply as int;
    let l = lp_amount as int;

    if b == 0 {
        vstd::arithmetic::mul::lemma_mul_basics(l);
        lemma_div_of0(s);
        assert(bags_out == 0 && pump_out == 0);
        assert(false);
    }
    let prop = b * l / s;
    assert(10000 * b == (2 * b) * 5000) by (nonlinear_arith);
    lemma_div_multiples_vanish(5000, 2 * b);
    assert(b * 10000 / (2 * b) == 5000);
    lemma_div_pos_is_pos(b * l, s);
    lemma_mul_div_le(b, l, s);
    vstd::arithmetic::mul::lemma_mul_basics(p.swap_fee_bps as int);
    vstd::arithmetic::mul::lemma_mul_basics(prop);
    vstd::arithmetic::mul::lemma_mul_basics(p.admin_fee_percent as int);
    assert(bags_out == prop);
    assert(pump_out == prop);
    assert(q.bags_balance == b - prop && q.pump_balance == b - prop && q.lp_supply == s - l);

    // the redeposit succeeded, so it was not empty
    if prop == 0 {
        assert(false);
    }
    // the paid-out share is strictly below the whole balance
    lemma_fundamental_div_mod(b * l, s);
    lemma_mod_bound(b * l, s);
    assert(s * prop <= b * l);
    vstd::arithmetic::mul::lemma_mul_strict_inequality(l, s, b);
    assert(b * l == l * b) by (nonlinear_arith);
    assert(s * b == b * s) by (nonlinear_arith);
    assert(s * prop < s * b);
    assert(prop < b) by (nonlinear_arith)
        requires
            s * prop < s * b,
            s > 0,
    ;

    assert(q.wf());
    lemma_interpolation_bounds(q, now);
    let amp = spec_current_amplification(q, now) as u64;
    lemma_d_equal_balances((b - prop) as u64, amp);
    lemma_d_equal_balances(p.bags_balance, amp);
    assert(spec_calculate_d((b - prop) as u64, (b - prop) as u64, amp) == Ok::<
        u128,
        StableSwapError,
    >((2 * (b - prop)) as u128));
    assert(spec_calculate_d(p.bags_balance, p.bags_balance, amp) == Ok::<u128, StableSwapError>(
        (2 * b) as u128,
    ));

    // the minted amount is the invariant growth, scaled by the share supply
    let d0 = 2 * (b - prop);
    let d1 = 2 * b;
    lemma_u64_mul_fits((2 * prop) as u64, (s - l) as u64);
    assert((d1 - d0) * (s - l) == 2 * (prop * (s - l))) by (nonlinear_arith)
        requires
            d1 == 2 * b,
            d0 == 2 * (b - prop),
    ;
    lemma_div_multiples_vanish_quotient(2, prop * (s - l), b - prop);
    assert((d1 - d0) * (s - l) / d0 == prop * (s - l) / (b - prop));

    // the ideal balances are the new balances themselves: no imbalance fee
    assert((b - prop) * d1 == (2 * (b - prop)) * b) by (nonlinear_arith)
        requires
            d1 == 2 * b,
    ;
    lemma_div_multiples_vanish(b, 2 * (b - prop));
    assert((b - prop) * d1 / d0 == b);
    lemma_mul_upper_bound(b - prop, 50_000_000_000_000_000, d1, 100_000_000_000_000_000);

    // scaled by a share of less than the whole, the growth stays below what
    // was burned
    assert(prop * (s - l) <= l * (b - prop)) by (nonlinear_arith)
        requires
            s * prop <= b * l,
    ;
    lemma_div_is_ordered(prop * (s - l), l * (b - prop), b - prop);
    assert(l * (b - prop) == (b - prop) * l) by (nonlinear_arith);
    lemma_div_multiples_vanish(l, b - prop);
    assert(prop * (s - l) / (b - prop) <= l);
}

/// A first deposit of exactly the minimum on both sides succeeds: it locks
/// `MINIMUM_LIQUIDITY` shares forever and mints the rest of the invariant to
/// the depositor. One unit below the minimum on either side is rejected with
/// `InitialDepositTooSmall`.
pub proof fn lemma_first_deposit_minimum(
    p: StablePool,
    bags_vault_amount: u64,
    pump_vault_amount: u64,
    min_lp_amount: u64,
    now: i64,
)
    requires
        p.wf(),
        !p.paused,
        p.lp_supply == 0,
        p.bags_balance == 0,
        p.pump_balance == 0,
        min_lp_amount <= 2 * MIN_INITIAL_DEPOSIT - MINIMUM_LIQUIDITY,
    ensures
        spec_add_liquidity(
            p,
            bags_vault_amount,
            pump_vault_amount,
            MIN_INITIAL_DEPOSIT,
            MIN_INITIAL_DEPOSIT,
            min_lp_amount,
            now,
        ) == Ok::<(StablePool, u64), StableSwapError>(
            (
                StablePool {
                    bags_balance: MIN_INITIAL_DEPOSIT,
                    pump_balance: MIN_INITIAL_DEPOSIT,
                    lp_supply: (2 * MIN_INITIAL_DEPOSIT) as u64,
                    ..p
                },
                (2 * MIN_INITIAL_DEPOSIT - MINIMUM_LIQUIDITY) as u64,
            ),
        ),
        spec_add_liquidity(
            p,
            bags_vault_amount,
            pump_vault_amount,
            (MIN_INITIAL_DEPOSIT - 1) as u64,
            MIN_INITIAL_DEPOSIT,
            min_lp_amount,
            now,
        ) == Err::<(StablePool, u64), StableSwapError>(StableSwapError::InitialDepositTooSmall),
        spec_add_liquidity(
            p,
            bags_vault_amount,
            pump_vault_amount,
            MIN_INITIAL_DEPOSIT,
            (MIN_INITIAL_DEPOSIT - 1) as u64,
            min_lp_amount,
            now,
        ) == Err::<(StablePool, u64), StableSwapError>(StableSwapError::InitialDepositTooSmall),
{
    lemma_interpolation_bounds(p, now);
    vstd::arithmetic::mul::lemma_mul_basics(p.admin_fee_percent as int);
    let amp = spec_current_amplification(p, now) as u64;
    lemma_d_equal_balances(MIN_INITIAL_DEPOSIT, amp);
    assert(spec_calculate_d(0, 0, amp) == Ok::<u128, StableSwapError>(0));
    assert(spec_calculate_d(MIN_INITIAL_DEPOSIT, MIN_INITIAL_DEPOSIT, amp) == Ok::<
        u128,
        StableSwapError,
    >((2 * MIN_INITIAL_DEPOSIT) as u128));
}

} // verus!
