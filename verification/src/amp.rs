use vstd::prelude::*;

use crate::pool::StablePool;
use crate::MAX_AMPLIFICATION;
use crate::MIN_AMPLIFICATION;
use vstd::arithmetic::div_mod::lemma_div_is_ordered;
use vstd::arithmetic::div_mod::lemma_div_multiples_vanish;
use vstd::arithmetic::mul::lemma_mul_inequality;
use vstd::arithmetic::mul::lemma_mul_upper_bound;

verus! {

/// The amplification coefficient in effect at time `now`: the target outside
/// a ramp window (or with no ramp scheduled), the initial value before the
/// window opens, and the linear interpolation between the two inside it.
pub open spec fn spec_current_amplification(p: StablePool, now: i64) -> int {
    if p.ramp_stop_time == 0 || now >= p.ramp_stop_time {
        p.target_amplification as int
    } else if now <= p.ramp_start_time {
        p.initial_amplification as int
    } else {
        let elapsed = now - p.ramp_start_time;
        let duration = p.ramp_stop_time - p.ramp_start_time;
        if p.target_amplification > p.initial_amplification {
            p.initial_amplification + (p.target_amplification - p.initial_amplification) * elapsed
                / duration
        } else {
            p.initial_amplification - (p.initial_amplification - p.target_amplification) * elapsed
                / duration
        }
    }
}

/// Inside a ramp window the interpolated coefficient never leaves the band
/// between the initial and the target value.
pub proof fn lemma_interpolation_bounds(p: StablePool, now: i64)
    requires
        p.wf(),
    ensures
        MIN_AMPLIFICATION <= spec_current_amplification(p, now) <= MAX_AMPLIFICATION,
{
    if p.ramp_stop_time == 0 || now >= p.ramp_stop_time {
    } else if now <= p.ramp_start_time {
    } else {
        let elapsed = now - p.ramp_start_time;
        let duration = p.ramp_stop_time - p.ramp_start_time;
        let i = p.initial_amplification as int;
        let t = p.target_amplification as int;
        if t > i {
            lemma_mul_inequality(elapsed, duration, t - i);
            lemma_div_is_ordered((t - i) * elapsed, (t - i) * duration, duration);
            lemma_div_multiples_vanish(t - i, duration);
            assert((t - i) * elapsed / duration <= t - i);
            assert((t - i) * elapsed >= 0) by (nonlinear_arith)
                requires
                    t - i >= 0,
                    elapsed >= 0,
            ;
            lemma_div_is_ordered(0, (t - i) * elapsed, duration);
        } else {
            lemma_mul_inequality(elapsed, duration, i - t);
            lemma_div_is_ordered((i - t) * elapsed, (i - t) * duration, duration);
            lemma_div_multiples_vanish(i - t, duration);
            assert((i - t) * elapsed / duration <= i - t);
            assert((i - t) * elapsed >= 0) by (nonlinear_arith)
                requires
                    i - t >= 0,
                    elapsed >= 0,
            ;
            lemma_div_is_ordered(0, (i - t) * elapsed, duration);
        }
    }
}

/// The amplification coefficient in effect at time `now`, with ramping
/// support.
pub fn get_current_amplification(p: &StablePool, now: i64) -> (r: u64)
    requires
        p.wf(),
    ensures
        r == spec_current_amplification(*p, now),
        MIN_AMPLIFICATION <= r <= MAX_AMPLIFICATION,
{
    proof {
        lemma_interpolation_bounds(*p, now);
    }
    if p.ramp_stop_time == 0 || now >= p.ramp_stop_time {
        p.target_amplification
    } else if now <= p.ramp_start_time {
        p.initial_amplification
    } else {
        let elapsed: u128 = (now - p.ramp_start_time) as u128;
        let duration: u128 = (p.ramp_stop_time - p.ramp_start_time) as u128;
        let initial: u128 = p.initial_amplification as u128;
        let target: u128 = p.target_amplification as u128;
        if target > initial {
            proof {
                lemma_mul_upper_bound(
                    target - initial,
                    MAX_AMPLIFICATION as int,
                    elapsed as int,
                    0x7fff_ffff_ffff_ffff,
                );
            }
            let current: u128 = initial + (target - initial) * elapsed / duration;
            current as u64
        } else {
            proof {
                lemma_mul_upper_bound(
                    initial - target,
                    MAX_AMPLIFICATION as int,
                    elapsed as int,
                    0x7fff_ffff_ffff_ffff,
                );
            }
            let current: u128 = initial - (initial - target) * elapsed / duration;
            current as u64
        }
    }
}

} // verus!
