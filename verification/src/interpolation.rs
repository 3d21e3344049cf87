//! Linear interpolation of a boil-kettle quantity over the boil window.
//!
//! The kettle's volume (and the wort's gravity) is modeled as changing
//! linearly from a start value at the beginning of the boil to an end value
//! at the end of the boil.  A hop added `time` before the end of the boil is
//! exposed over the window `[t_end - time, t_end]`; its exposure is summarized
//! by the arithmetic mean of the value at the window's start and the value at
//! the end of the boil.  All arithmetic is exact fixed-point integer
//! arithmetic; each division rounds toward zero.
use vstd::arithmetic::div_mod::{
    lemma_div_is_ordered, lemma_div_multiples_vanish, lemma_div_nonincreasing,
};
use vstd::arithmetic::mul::{
    lemma_mul_inequality, lemma_mul_nonnegative, lemma_mul_unary_negation, lemma_mul_upper_bound,
};
use vstd::prelude::*;

use crate::units::QUANTITY_LIMIT;

verus! {

/// Integer division by a positive divisor, rounding toward zero.
pub open spec fn div_toward_zero(a: int, d: int) -> int
    recommends
        d > 0,
{
    if a >= 0 {
        a / d
    } else {
        -((-a) / d)
    }
}

/// Offset accumulated after `x` of `t_end` time units by a quantity whose
/// total change over the whole ramp has magnitude `delta`.  A negative `x`
/// extrapolates backwards before the start of the ramp.
pub open spec fn ramp_offset(delta: int, x: int, t_end: int) -> int
    recommends
        delta >= 0,
        t_end > 0,
{
    div_toward_zero(delta * x, t_end)
}

/// Value at elapsed time `x` on the line that passes through `v_start` at
/// time `0` and `v_end` at time `t_end`.
pub open spec fn line_value(v_start: int, v_end: int, x: int, t_end: int) -> int
    recommends
        t_end > 0,
{
    if v_end <= v_start {
        v_start - ramp_offset(v_start - v_end, x, t_end)
    } else {
        v_start + ramp_offset(v_end - v_start, x, t_end)
    }
}

/// Mean of the interpolated value at elapsed time `x` and the end value.
pub open spec fn window_average(v_start: int, v_end: int, x: int, t_end: int) -> int
    recommends
        t_end > 0,
{
    div_toward_zero(line_value(v_start, v_end, x, t_end) + v_end, 2)
}

/// Computes `window_average` for a hop added `time` before the end of a ramp
/// of duration `t_end`, that is, at elapsed time `t_end - time`.
pub fn interpolated_window_average(v_start: u64, v_end: u64, time: u64, t_end: u64) -> (r: i64)
    requires
        0 < t_end <= QUANTITY_LIMIT,
        v_start <= QUANTITY_LIMIT,
        v_end <= QUANTITY_LIMIT,
        time <= QUANTITY_LIMIT,
    ensures
        r == window_average(v_start as int, v_end as int, t_end - time, t_end as int),
{
    let ghost x: int = t_end - time;
    let rising: bool = v_end > v_start;
    let delta: u64 = if rising {
        v_end - v_start
    } else {
        v_start - v_end
    };
    let xneg: bool = time > t_end;
    let xmag: u64 = if xneg {
        time - t_end
    } else {
        t_end - time
    };
    assert(delta * xmag <= 1_000_000_000_000_000_000) by {
        lemma_mul_upper_bound(delta as int, QUANTITY_LIMIT as int, xmag as int, QUANTITY_LIMIT as int);
    }
    let product: u64 = delta * xmag;
    let offset: u64 = product / t_end;
    proof {
        lemma_div_nonincreasing(product as int, t_end as int);
    }
    proof {
        lemma_mul_nonnegative(delta as int, xmag as int);
        if xneg {
            assert(x == -(xmag as int));
            assert(delta * x == -((delta as int) * (xmag as int))) by {
                lemma_mul_unary_negation(delta as int, xmag as int);
            }
            assert(div_toward_zero(delta * x, t_end as int) == -(offset as int));
        } else {
            assert(x == xmag as int);
            assert(div_toward_zero(delta * x, t_end as int) == offset as int);
        }
    }
    let line: i64 = if rising != xneg {
        v_start as i64 + offset as i64
    } else {
        v_start as i64 - offset as i64
    };
    assert(line == line_value(v_start as int, v_end as int, x, t_end as int));
    let sum: i64 = line + v_end as i64;
    assert(sum == line_value(v_start as int, v_end as int, x, t_end as int) + v_end);
    if sum >= 0 {
        ((sum as u64) / 2) as i64
    } else {
        -(((-sum) as u64 / 2) as i64)
    }
}

/// The exposure window of a hop added at the very start of the ramp averages
/// the two endpoint values, and that of a hop added at the very end is the
/// end value exactly.
pub proof fn lemma_window_average_boundary(v_start: int, v_end: int, t_end: int)
    requires
        t_end > 0,
        0 <= v_start,
        0 <= v_end,
    ensures
        window_average(v_start, v_end, 0, t_end) == (v_start + v_end) / 2,
        window_average(v_start, v_end, t_end, t_end) == v_end,
{
    let delta: int = if v_end <= v_start {
        v_start - v_end
    } else {
        v_end - v_start
    };
    assert(delta * 0 == 0);
    assert(line_value(v_start, v_end, 0, t_end) == v_start);
    assert(delta * t_end / t_end == delta) by {
        lemma_div_multiples_vanish(delta, t_end);
        assert(t_end * delta == delta * t_end);
    }
    assert(line_value(v_start, v_end, t_end, t_end) == v_end);
    assert(window_average(v_start, v_end, t_end, t_end) == (v_end + v_end) / 2);
    assert(v_end + v_end == v_end * 2);
    assert(v_end * 2 / 2 == v_end) by {
        lemma_div_multiples_vanish(v_end, 2);
        assert(2 * v_end == v_end * 2);
    }
}

/// In the boil-off case (`v_end <= v_start`), the window average does not
/// increase as the addition time shrinks from the whole ramp toward zero.
pub proof fn lemma_window_average_monotonic(
    v_start: int,
    v_end: int,
    t1: int,
    t2: int,
    t_end: int,
)
    requires
        t_end > 0,
        0 <= v_end <= v_start,
        0 <= t1 <= t2 <= t_end,
    ensures
        window_average(v_start, v_end, t_end - t1, t_end) <= window_average(
            v_start,
            v_end,
            t_end - t2,
            t_end,
        ),
{
    let delta: int = v_start - v_end;
    let x1: int = t_end - t1;
    let x2: int = t_end - t2;
    assert(delta * x2 <= delta * x1) by {
        lemma_mul_inequality(x2, x1, delta);
        assert(x2 * delta == delta * x2);
        assert(x1 * delta == delta * x1);
    }
    assert(delta * x1 / t_end >= delta * x2 / t_end) by {
        lemma_div_is_ordered(delta * x2, delta * x1, t_end);
    }
    assert(delta * x1 <= delta * t_end) by {
        lemma_mul_inequality(x1, t_end, delta);
        assert(x1 * delta == delta * x1);
        assert(t_end * delta == delta * t_end);
    }
    assert(delta * x1 / t_end <= delta) by {
        lemma_div_is_ordered(delta * x1, delta * t_end, t_end);
        lemma_div_multiples_vanish(delta, t_end);
        assert(t_end * delta == delta * t_end);
    }
    let line1: int = line_value(v_start, v_end, x1, t_end);
    let line2: int = line_value(v_start, v_end, x2, t_end);
    assert(delta * x1 >= 0) by {
        lemma_mul_inequality(0, x1, delta);
        assert(x1 * delta == delta * x1);
    }
    assert(delta * x2 >= 0) by {
        lemma_mul_inequality(0, x2, delta);
        assert(x2 * delta == delta * x2);
    }
    assert(v_end <= line1 <= line2);
    assert(window_average(v_start, v_end, x1, t_end) == (line1 + v_end) / 2);
    assert(window_average(v_start, v_end, x2, t_end) == (line2 + v_end) / 2);
    lemma_div_is_ordered(line1 + v_end, line2 + v_end, 2);
}

} // verus!
