//! Per-frame view parameters and the zoom model.
//!
//! The zoom is only ever scaled by 1.01 or by 1/1.01 and reset to 1, so it is
//! held exactly as an exponent: a state with `zoom_exp == e` views the plane
//! at zoom `1.01^e`. As a rational number that zoom is
//! `zoom_numer(e) / zoom_denom(e)`. For uniform upload and pan steps the
//! exponent is lowered to a fixed-point value by `zoom_fix`, clamped to
//! `[0, FIX_MAX]`.

use vstd::prelude::*;
use vstd::arithmetic::power::pow;
use vstd::math::abs;
use crate::fixed::FIX_ONE;
use crate::fixed::FIX_MAX;

verus! {

/// The parameters the input step mutates once per frame and the render step
/// uploads as shader uniforms.
#[derive(Clone, Copy, PartialEq, Eq, Structural, Debug)]
pub struct ViewState {
    /// The zoom is `1.01^zoom_exp`; zooming in lowers the exponent.
    pub zoom_exp: i64,
    /// Pan offset along x, in fixed-point fractal-space units.
    pub offset_x: i64,
    /// Pan offset along y, in fixed-point fractal-space units.
    pub offset_y: i64,
    /// Escape-time iteration bound handed to the shader; never negative.
    pub iteration_limit: u32,
}

/// Startup defaults: zoom 1, offset (0, 0), iteration limit 1000.
pub open spec fn init_spec() -> ViewState {
    ViewState { zoom_exp: 0, offset_x: 0, offset_y: 0, iteration_limit: 1000 }
}

/// Numerator of the exact zoom value `1.01^e`.
pub open spec fn zoom_numer(e: int) -> int {
    if e >= 0 {
        pow(101, e as nat)
    } else {
        pow(100, (-e) as nat)
    }
}

/// Denominator of the exact zoom value `1.01^e`.
pub open spec fn zoom_denom(e: int) -> int {
    if e >= 0 {
        pow(100, e as nat)
    } else {
        pow(101, (-e) as nat)
    }
}

/// Both parts of the zoom rational are positive at every exponent, so the
/// zoom itself is strictly positive and in particular never exactly 0.
pub proof fn lemma_zoom_rational_positive(e: int)
    ensures
        zoom_numer(e) > 0,
        zoom_denom(e) > 0,
{
    if e >= 0 {
        vstd::arithmetic::power::lemma_pow_positive(101, e as nat);
        vstd::arithmetic::power::lemma_pow_positive(100, e as nat);
    } else {
        vstd::arithmetic::power::lemma_pow_positive(100, (-e) as nat);
        vstd::arithmetic::power::lemma_pow_positive(101, (-e) as nat);
    }
}

/// One zoom-out step on a fixed-point zoom value, clamped to `FIX_MAX`.
pub open spec fn grow_fix(v: int) -> int {
    if v * 101 / 100 > FIX_MAX {
        FIX_MAX as int
    } else {
        v * 101 / 100
    }
}

/// One zoom-in step on a fixed-point zoom value.
pub open spec fn shrink_fix(v: int) -> int {
    v * 100 / 101
}

/// Fixed-point value of the zoom at exponent `e`: `1.01^e * FIX_ONE`,
/// rounded down at every step and clamped to `[0, FIX_MAX]`.
pub open spec fn zoom_fix_spec(e: int) -> int
    decreases abs(e),
{
    if e == 0 {
        FIX_ONE as int
    } else if e > 0 {
        grow_fix(zoom_fix_spec(e - 1))
    } else {
        shrink_fix(zoom_fix_spec(e + 1))
    }
}

pub proof fn lemma_zoom_fix_bounds(e: int)
    ensures
        0 <= zoom_fix_spec(e) <= FIX_MAX,
    decreases abs(e),
{
    if e == 0 {
    } else if e > 0 {
        lemma_zoom_fix_bounds(e - 1);
        let v = zoom_fix_spec(e - 1);
        vstd::arithmetic::div_mod::lemma_div_pos_is_pos(v * 101, 100);
    } else {
        lemma_zoom_fix_bounds(e + 1);
        let v = zoom_fix_spec(e + 1);
        vstd::arithmetic::div_mod::lemma_div_pos_is_pos(v * 100, 101);
        assert(v * 100 <= v * 101) by (nonlinear_arith)
            requires
                v >= 0,
        ;
        vstd::arithmetic::div_mod::lemma_div_is_ordered(v * 100, v * 101, 101);
        vstd::arithmetic::mul::lemma_mul_is_commutative(v, 101);
        vstd::arithmetic::div_mod::lemma_div_multiples_vanish(v, 101);
    }
}

/// Once the fixed-point zoom has been clamped to `FIX_MAX`, every further
/// zoom-out step leaves it there.
pub proof fn lemma_zoom_fix_pinned_high(k: int, e: int)
    requires
        0 <= k <= e,
        zoom_fix_spec(k) == FIX_MAX,
    ensures
        zoom_fix_spec(e) == FIX_MAX,
    decreases e - k,
{
    if e > k {
        lemma_zoom_fix_pinned_high(k, e - 1);
    }
}

/// Once the fixed-point zoom has been rounded down to 0, every further
/// zoom-in step leaves it there.
pub proof fn lemma_zoom_fix_pinned_low(k: int, e: int)
    requires
        e <= k <= 0,
        zoom_fix_spec(k) == 0,
    ensures
        zoom_fix_spec(e) == 0,
    decreases k - e,
{
    if e < k {
        lemma_zoom_fix_pinned_low(k, e + 1);
    }
}

/// Fixed-point value of the zoom at exponent `e`.
pub fn zoom_fix(e: i64) -> (r: i64)
    ensures
        r == zoom_fix_spec(e as int),
        0 <= r <= FIX_MAX,
{
    proof {
        lemma_zoom_fix_bounds(e as int);
    }
    let mut cur: i64 = FIX_ONE;
    if e >= 0 {
        let mut k: i64 = 0;
        while k < e
            invariant
                0 <= k <= e,
                cur == zoom_fix_spec(k as int),
            decreases e - k,
        {
            if cur == FIX_MAX {
                proof {
                    lemma_zoom_fix_pinned_high(k as int, e as int);
                }
                return FIX_MAX;
            }
            proof {
                lemma_zoom_fix_bounds(k as int);
                vstd::arithmetic::div_mod::lemma_div_pos_is_pos(cur as int * 101, 100);
            }
            let next: i64 = cur * 101 / 100;
            cur = if next > FIX_MAX {
                FIX_MAX
            } else {
                next
            };
            k = k + 1;
        }
    } else {
        let mut k: i64 = 0;
        while k > e
            invariant
                e <= k <= 0,
                cur == zoom_fix_spec(k as int),
            decreases k - e,
        {
            if cur == 0 {
                proof {
                    lemma_zoom_fix_pinned_low(k as int, e as int);
                }
                return 0;
            }
            proof {
                lemma_zoom_fix_bounds(k as int);
                vstd::arithmetic::div_mod::lemma_div_pos_is_pos(cur as int * 100, 101);
            }
            cur = cur * 100 / 101;
            k = k - 1;
        }
    }
    cur
}

/// Fixed-point distance one held pan key moves the offset per frame:
/// the zoom divided by 150.
pub open spec fn pan_step_spec(e: int) -> int {
    zoom_fix_spec(e) / 150
}

pub fn pan_step(e: i64) -> (r: i64)
    ensures
        r == pan_step_spec(e as int),
        r >= 0,
{
    let z: i64 = zoom_fix(e);
    proof {
        vstd::arithmetic::div_mod::lemma_div_pos_is_pos(z as int, 150);
    }
    z / 150
}

impl ViewState {
    /// The state the loop starts from.
    pub fn new() -> (v: ViewState)
        ensures
            v == init_spec(),
    {
        ViewState { zoom_exp: 0, offset_x: 0, offset_y: 0, iteration_limit: 1000 }
    }
}

} // verus!
