use vstd::prelude::*;

use vstd::arithmetic::div_mod::lemma_div_is_ordered;
use vstd::arithmetic::div_mod::lemma_div_multiples_vanish;
use vstd::arithmetic::mul::lemma_mul_left_inequality;
use vstd::arithmetic::mul::lemma_mul_upper_bound;

verus! {

/// Scaling down by a factor of at most one never grows a value:
/// `a * b / c <= a` whenever `b <= c`. This bounds every basis-point fee,
/// every percentage cut and every pro-rata share the pool computes.
pub proof fn lemma_mul_div_le(a: int, b: int, c: int)
    requires
        0 <= a,
        0 <= b,
        b <= c,
        0 < c,
    ensures
        a * b / c <= a,
{
    if a == 0 {
        assert(0 * b == 0) by (nonlinear_arith);
    } else {
        lemma_mul_left_inequality(a, b, c);
        lemma_div_is_ordered(a * b, a * c, c);
        lemma_div_multiples_vanish(a, c);
        assert(c * a == a * c) by (nonlinear_arith);
    }
}

/// The product of two 64-bit values always fits in 128 bits.
pub proof fn lemma_u64_mul_fits(a: u64, b: u64)
    ensures
        a * b <= u128::MAX,
{
    lemma_mul_upper_bound(a as int, u64::MAX as int, b as int, u64::MAX as int);
}

} // verus!
