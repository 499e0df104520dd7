use vstd::prelude::*;

use crate::error::StableSwapError;
use vstd::arithmetic::div_mod::lemma_div_multiples_vanish;
use vstd::arithmetic::mul::lemma_mul_strictly_positive;
use vstd::arithmetic::mul::lemma_mul_upper_bound;
use crate::CONVERGENCE_THRESHOLD;
use crate::MAX_ITERATIONS;

verus! {

// ─────────────────────────────────────────────────────────────────────────────
// Invariant solver: Newton's method for the two-asset StableSwap invariant
//
//     Ann * S + D = Ann * D + D^3 / (4 * x * y)        (n = 2, Ann = A * n)
//
// `calculate_d` solves for D given the balances; `calculate_y` solves for one
// balance given the other and D. Both specs below describe the integer
// iteration exactly, including where an intermediate product would exceed
// `u128::MAX` (the operation then fails with `MathOverflow`) and where the
// iteration bound runs out (`ConvergenceFailed`).
// ─────────────────────────────────────────────────────────────────────────────

/// One Newton step for D. `None` marks an arithmetic failure: an intermediate
/// value above `u128::MAX`, an amplification of zero, or a zero denominator.
pub open spec fn d_step(bags: u64, pump: u64, amp: u64, d: u128) -> Option<int> {
    let ann = 2 * (amp as int);
    let sum = bags + pump;
    if d * d > u128::MAX {
        None
    } else {
        let dp1 = (d * d) / (2 * bags);
        if dp1 * d > u128::MAX {
            None
        } else {
            let dp = (dp1 * d) / (2 * pump);
            if ann * sum > u128::MAX {
                None
            } else if ann * sum + 2 * dp > u128::MAX {
                None
            } else if (ann * sum + 2 * dp) * d > u128::MAX {
                None
            } else if ann < 1 {
                None
            } else if (ann - 1) * d + 3 * dp > u128::MAX {
                None
            } else if (ann - 1) * d + 3 * dp == 0 {
                None
            } else {
                Some((ann * sum + 2 * dp) * d / ((ann - 1) * d + 3 * dp))
            }
        }
    }
}

/// The remaining iterations of the D loop, started at iterate `d` with `fuel`
/// iterations left.
pub open spec fn d_iterations(bags: u64, pump: u64, amp: u64, d: u128, fuel: nat) -> Result<
    u128,
    StableSwapError,
>
    decreases fuel,
{
    if fuel == 0 {
        Err(StableSwapError::ConvergenceFailed)
    } else {
        match d_step(bags, pump, amp, d) {
            None => Err(StableSwapError::MathOverflow),
            Some(d_next) => if -(CONVERGENCE_THRESHOLD as int) <= d_next - d && d_next - d
                <= CONVERGENCE_THRESHOLD as int {
                Ok(d_next as u128)
            } else {
                d_iterations(bags, pump, amp, d_next as u128, (fuel - 1) as nat)
            },
        }
    }
}

/// What `calculate_d` returns, for every input.
pub open spec fn spec_calculate_d(bags: u64, pump: u64, amp: u64) -> Result<
    u128,
    StableSwapError,
> {
    if bags == 0 || pump == 0 {
        Ok(0)
    } else {
        d_iterations(bags, pump, amp, (bags + pump) as u128, MAX_ITERATIONS as nat)
    }
}

/// Newton's-method solution of the invariant for D, from the two balances and
/// the amplification coefficient in effect.
pub fn calculate_d(bags_balance: u64, pump_balance: u64, amplification: u64) -> (r: Result<
    u128,
    StableSwapError,
>)
    ensures
        r == spec_calculate_d(bags_balance, pump_balance, amplification),
{
    if bags_balance == 0 || pump_balance == 0 {
        return Ok(0);
    }
    let sum: u128 = bags_balance as u128 + pump_balance as u128;
    let ann: u128 = (amplification as u128) * 2;
    let bags2: u128 = (bags_balance as u128) * 2;
    let pump2: u128 = (pump_balance as u128) * 2;

    let mut d: u128 = sum;
    let mut i: u64 = 0;
    while i < MAX_ITERATIONS
        invariant
            0 < bags_balance,
            0 < pump_balance,
            sum == bags_balance + pump_balance,
            ann == 2 * amplification,
            bags2 == 2 * bags_balance,
            pump2 == 2 * pump_balance,
            i <= MAX_ITERATIONS,
            spec_calculate_d(bags_balance, pump_balance, amplification) == d_iterations(
                bags_balance,
                pump_balance,
                amplification,
                d,
                (MAX_ITERATIONS - i) as nat,
            ),
        decreases MAX_ITERATIONS - i,
    {
        let dd: u128 = match d.checked_mul(d) {
            Some(v) => v,
            None => {
                return Err(StableSwapError::MathOverflow);
            },
        };
        let dp1: u128 = dd / bags2;
        let dp1d: u128 = match dp1.checked_mul(d) {
            Some(v) => v,
            None => {
                return Err(StableSwapError::MathOverflow);
            },
        };
        let dp: u128 = dp1d / pump2;
        let ann_sum: u128 = match ann.checked_mul(sum) {
            Some(v) => v,
            None => {
                return Err(StableSwapError::MathOverflow);
            },
        };
        let num_base: u128 = match ann_sum.checked_add(match dp.checked_mul(2) {
            Some(v) => v,
            None => {
                return Err(StableSwapError::MathOverflow);
            },
        }) {
            Some(v) => v,
            None => {
                return Err(StableSwapError::MathOverflow);
            },
        };
        let numerator: u128 = match num_base.checked_mul(d) {
            Some(v) => v,
            None => {
                return Err(StableSwapError::MathOverflow);
            },
        };
        let ann_m1: u128 = match ann.checked_sub(1) {
            Some(v) => v,
            None => {
                return Err(StableSwapError::MathOverflow);
            },
        };
        let denominator: u128 = match (match ann_m1.checked_mul(d) {
            Some(v) => v,
            None => {
                return Err(StableSwapError::MathOverflow);
            },
        }).checked_add(match dp.checked_mul(3) {
            Some(v) => v,
            None => {
                return Err(StableSwapError::MathOverflow);
            },
        }) {
            Some(v) => v,
            None => {
                return Err(StableSwapError::MathOverflow);
            },
        };
        if denominator == 0 {
            return Err(StableSwapError::MathOverflow);
        }
        let d_next: u128 = numerator / denominator;
        proof {
            assert(d_step(bags_balance, pump_balance, amplification, d) == Some(d_next as int));
        }
        if d_next > d {
            if d_next - d <= CONVERGENCE_THRESHOLD {
                return Ok(d_next);
            }
        } else {
            if d - d_next <= CONVERGENCE_THRESHOLD {
                return Ok(d_next);
            }
        }
        d = d_next;
        i = i + 1;
    }
    Err(StableSwapError::ConvergenceFailed)
}

/// One Newton step for y, with `b` and `c` fixed by `calculate_y`'s setup.
/// `None` marks an intermediate value above `u128::MAX` or a denominator that
/// is zero or negative.
pub open spec fn y_step(b: int, c: int, d: u128, y: u128) -> Option<int> {
    if y * y > u128::MAX {
        None
    } else if y * y + c > u128::MAX {
        None
    } else if 2 * y > u128::MAX {
        None
    } else if 2 * y + b > u128::MAX {
        None
    } else if 2 * y + b - d < 0 {
        None
    } else if 2 * y + b - d == 0 {
        None
    } else {
        Some((y * y + c) / (2 * y + b - d))
    }
}

/// The remaining iterations of the y loop, started at iterate `y` with `fuel`
/// iterations left.
pub open spec fn y_iterations(b: int, c: int, d: u128, y: u128, fuel: nat) -> Result<
    u128,
    StableSwapError,
>
    decreases fuel,
{
    if fuel == 0 {
        Err(StableSwapError::ConvergenceFailed)
    } else {
        match y_step(b, c, d, y) {
            None => Err(StableSwapError::MathOverflow),
            Some(y_next) => if -(CONVERGENCE_THRESHOLD as int) <= y_next - y && y_next - y
                <= CONVERGENCE_THRESHOLD as int {
                Ok(y_next as u128)
            } else {
                y_iterations(b, c, d, y_next as u128, (fuel - 1) as nat)
            },
        }
    }
}

/// The constant term of the y iteration: `c = D^3 / (4 * x * Ann)`, computed
/// as `(D * D / (2 * x)) * D / (2 * Ann)`.
pub open spec fn y_c_term(x: u128, d: u128, amp: u64) -> Option<int> {
    let ann = 2 * (amp as int);
    if 2 * x > u128::MAX {
        None
    } else if d * d > u128::MAX {
        None
    } else if ((d * d) / (2 * x)) * d > u128::MAX {
        None
    } else if ann == 0 {
        None
    } else {
        Some((((d * d) / (2 * x)) * d) / (2 * ann))
    }
}

/// The linear term of the y iteration: `b = x + D / Ann`.
pub open spec fn y_b_term(x: u128, d: u128, amp: u64) -> Option<int> {
    let ann = 2 * (amp as int);
    if ann == 0 {
        None
    } else if x + (d as int) / ann > u128::MAX {
        None
    } else {
        Some(x + (d as int) / ann)
    }
}

/// What `calculate_y` returns, for every input.
pub open spec fn spec_calculate_y(x: u128, d: u128, amp: u64) -> Result<u128, StableSwapError> {
    if d == 0 || x == 0 {
        Ok(0)
    } else {
        match y_c_term(x, d, amp) {
            None => Err(StableSwapError::MathOverflow),
            Some(c) => match y_b_term(x, d, amp) {
                None => Err(StableSwapError::MathOverflow),
                Some(b) => y_iterations(b, c, d, d, MAX_ITERATIONS as nat),
            },
        }
    }
}

/// Newton's-method solution of the invariant for the output-side balance `y`,
/// from the new input-side balance `x`, the invariant `D` and the
/// amplification coefficient in effect.
pub fn calculate_y(x: u128, d: u128, amplification: u64) -> (r: Result<u128, StableSwapError>)
    ensures
        r == spec_calculate_y(x, d, amplification),
{
    if d == 0 || x == 0 {
        return Ok(0);
    }
    let ann: u128 = (amplification as u128) * 2;

    let x2: u128 = match x.checked_mul(2) {
        Some(v) => v,
        None => {
            return Err(StableSwapError::MathOverflow);
        },
    };
    let dd: u128 = match d.checked_mul(d) {
        Some(v) => v,
        None => {
            return Err(StableSwapError::MathOverflow);
        },
    };
    let v1: u128 = dd / x2;
    let v1d: u128 = match v1.checked_mul(d) {
        Some(v) => v,
        None => {
            return Err(StableSwapError::MathOverflow);
        },
    };
    let ann2: u128 = match ann.checked_mul(2) {
        Some(v) => v,
        None => {
            return Err(StableSwapError::MathOverflow);
        },
    };
    if ann2 == 0 {
        return Err(StableSwapError::MathOverflow);
    }
    let c: u128 = v1d / ann2;
    proof {
        assert(y_c_term(x, d, amplification) == Some(c as int));
    }

    let d_over_ann: u128 = match d.checked_div(ann) {
        Some(v) => v,
        None => {
            return Err(StableSwapError::MathOverflow);
        },
    };
    let b: u128 = match x.checked_add(d_over_ann) {
        Some(v) => v,
        None => {
            return Err(StableSwapError::MathOverflow);
        },
    };
    proof {
        assert(y_b_term(x, d, amplification) == Some(b as int));
    }

    let mut y: u128 = d;
    let mut i: u64 = 0;
    while i < MAX_ITERATIONS
        invariant
            i <= MAX_ITERATIONS,
            y_c_term(x, d, amplification) == Some(c as int),
            y_b_term(x, d, amplification) == Some(b as int),
            d != 0 && x != 0,
            spec_calculate_y(x, d, amplification) == y_iterations(
                b as int,
                c as int,
                d,
                y,
                (MAX_ITERATIONS - i) as nat,
            ),
        decreases MAX_ITERATIONS - i,
    {
        let yy: u128 = match y.checked_mul(y) {
            Some(v) => v,
            None => {
                return Err(StableSwapError::MathOverflow);
            },
        };
        let numerator: u128 = match yy.checked_add(c) {
            Some(v) => v,
            None => {
                return Err(StableSwapError::MathOverflow);
            },
        };
        let y2: u128 = match y.checked_mul(2) {
            Some(v) => v,
            None => {
                return Err(StableSwapError::MathOverflow);
            },
        };
        let y2b: u128 = match y2.checked_add(b) {
            Some(v) => v,
            None => {
                return Err(StableSwapError::MathOverflow);
            },
        };
        let denominator: u128 = match y2b.checked_sub(d) {
            Some(v) => v,
            None => {
                return Err(StableSwapError::MathOverflow);
            },
        };
        if denominator == 0 {
            return Err(StableSwapError::MathOverflow);
        }
        let y_next: u128 = numerator / denominator;
        proof {
            assert(y_step(b as int, c as int, d, y) == Some(y_next as int));
        }
        if y_next > y {
            if y_next - y <= CONVERGENCE_THRESHOLD {
                return Ok(y_next);
            }
        } else {
            if y - y_next <= CONVERGENCE_THRESHOLD {
                return Ok(y_next);
            }
        }
        y = y_next;
        i = i + 1;
    }
    Err(StableSwapError::ConvergenceFailed)
}

/// With equal balances the iteration is already at its fixed point: for any
/// amplification in the accepted range, `calculate_d(x, x, amp)` returns
/// exactly `2 * x`, within the first iteration. The bound on `x` keeps every
/// intermediate product of the step below `u128::MAX`; a larger `x` (for
/// instance `u64::MAX`) makes the first step fail with `MathOverflow` instead.
pub proof fn lemma_d_equal_balances(x: u64, amp: u64)
    requires
        0 < x <= 50_000_000_000_000_000,
        crate::MIN_AMPLIFICATION <= amp <= crate::MAX_AMPLIFICATION,
    ensures
        spec_calculate_d(x, x, amp) == Ok::<u128, StableSwapError>((2 * x) as u128),
{
    let d: int = 2 * x;
    let ann: int = 2 * (amp as int);
    let sum: int = 2 * x;

    lemma_mul_upper_bound(d, 100_000_000_000_000_000, d, 100_000_000_000_000_000);
    assert(d * d <= u128::MAX);
    lemma_div_multiples_vanish(d, d);
    assert((d * d) / (2 * x) == d);

    lemma_mul_upper_bound(ann, 20000, sum, 100_000_000_000_000_000);
    assert(ann * sum <= 2_000_000_000_000_000_000_000);
    let base: int = ann * sum + 2 * d;
    assert(base <= u128::MAX);
    lemma_mul_upper_bound(base, 2_000_200_000_000_000_000_000, d, 100_000_000_000_000_000);
    assert(base * d <= u128::MAX);

    assert((ann - 1) * d == ann * d - d) by (nonlinear_arith);
    assert(ann * d == ann * sum);
    assert((ann - 1) * d + 3 * d == base);
    lemma_mul_strictly_positive(ann, sum);
    assert(base > 0);
    lemma_div_multiples_vanish(d, base);
    assert((base * d) / base == d);

    assert(d_step(x, x, amp, d as u128) == Some(d));
    assert(d_iterations(x, x, amp, d as u128, MAX_ITERATIONS as nat) == Ok::<
        u128,
        StableSwapError,
    >(d as u128));
    assert(spec_calculate_d(x, x, amp) == Ok::<u128, StableSwapError>((2 * x) as u128));
}

/// What `calculate_swap_output` returns, for every input.
pub open spec fn spec_calculate_swap_output(
    bags_balance: u64,
    pump_balance: u64,
    amount_in: u64,
    amp: u64,
    bags_to_pump: bool,
) -> Result<u64, StableSwapError> {
    match spec_calculate_d(bags_balance, pump_balance, amp) {
        Err(e) => Err(e),
        Ok(d) => {
            let x_new = if bags_to_pump {
                bags_balance + amount_in
            } else {
                pump_balance + amount_in
            };
            let y_old = if bags_to_pump {
                pump_balance as int
            } else {
                bags_balance as int
            };
            match spec_calculate_y(x_new as u128, d, amp) {
                Err(e) => Err(e),
                Ok(y_new) => if y_old - y_new < 0 {
                    Err(StableSwapError::MathOverflow)
                } else {
                    Ok((y_old - y_new) as u64)
                },
            }
        },
    }
}

/// Gross swap output before fees: the drop of the output-side balance that
/// restores the invariant after `amount_in` lands on the input side. The
/// result never exceeds the output-side balance.
pub fn calculate_swap_output(
    bags_balance: u64,
    pump_balance: u64,
    amount_in: u64,
    amplification: u64,
    bags_to_pump: bool,
) -> (r: Result<u64, StableSwapError>)
    ensures
        r == spec_calculate_swap_output(
            bags_balance,
            pump_balance,
            amount_in,
            amplification,
            bags_to_pump,
        ),
        r matches Ok(dy) ==> (bags_to_pump ==> dy <= pump_balance) && (!bags_to_pump ==> dy
            <= bags_balance),
{
    let d: u128 = match calculate_d(bags_balance, pump_balance, amplification) {
        Ok(v) => v,
        Err(e) => {
            return Err(e);
        },
    };
    let (x_new, y_old): (u128, u128) = if bags_to_pump {
        ((bags_balance as u128) + (amount_in as u128), pump_balance as u128)
    } else {
        ((pump_balance as u128) + (amount_in as u128), bags_balance as u128)
    };
    let y_new: u128 = match calculate_y(x_new, d, amplification) {
        Ok(v) => v,
        Err(e) => {
            return Err(e);
        },
    };
    let dy: u128 = match y_old.checked_sub(y_new) {
        Some(v) => v,
        None => {
            return Err(StableSwapError::MathOverflow);
        },
    };
    Ok(dy as u64)
}

} // verus!
