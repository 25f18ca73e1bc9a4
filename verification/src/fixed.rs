//! Fixed-point scalars: `i64` values carrying `FIX_ONE` steps per unit.

use vstd::prelude::*;

verus! {

/// Number of fixed-point steps in one unit.
pub const FIX_ONE: i64 = 65536;

/// Largest fixed-point value the zoom computation produces; chosen so that
/// multiplying it by 101 still fits in an `i64`.
pub const FIX_MAX: i64 = 72057594037927935;

/// Truncating (round-toward-zero) division, as the machine divides signed
/// integers.
pub open spec fn tdiv(a: int, b: int) -> int {
    if a >= 0 {
        a / b
    } else {
        -((-a) / b)
    }
}

/// `a + b` clamped to the `i64` range.
pub open spec fn sat_add_spec(a: int, b: int) -> int {
    if a + b > i64::MAX {
        i64::MAX as int
    } else if a + b < i64::MIN {
        i64::MIN as int
    } else {
        a + b
    }
}

/// `a - b` clamped to the `i64` range.
pub open spec fn sat_sub_spec(a: int, b: int) -> int {
    sat_add_spec(a, -b)
}

/// Scale a fixed-point product back down by `FIX_ONE`.
pub fn div_fix(a: i64) -> (r: i64)
    ensures
        r == tdiv(a as int, FIX_ONE as int),
{
    a / FIX_ONE
}

/// Saturating addition on `i64`.
pub fn sat_add(a: i64, b: i64) -> (r: i64)
    ensures
        r == sat_add_spec(a as int, b as int),
{
    if b >= 0 {
        if a <= i64::MAX - b {
            a + b
        } else {
            i64::MAX
        }
    } else {
        if a >= i64::MIN - b {
            a + b
        } else {
            i64::MIN
        }
    }
}

/// Saturating subtraction on `i64`.
pub fn sat_sub(a: i64, b: i64) -> (r: i64)
    ensures
        r == sat_sub_spec(a as int, b as int),
{
    if b >= 0 {
        if a >= i64::MIN + b {
            a - b
        } else {
            i64::MIN
        }
    } else {
        if a <= i64::MAX + b {
            a - b
        } else {
            i64::MAX
        }
    }
}

/// The quotient of a value bounded by `m * b` in magnitude is bounded by `m`.
pub proof fn lemma_tdiv_bound(a: int, b: int, m: int)
    requires
        b > 0,
        m >= 0,
        -(m * b) <= a <= m * b,
    ensures
        -m <= tdiv(a, b) <= m,
{
    vstd::arithmetic::mul::lemma_mul_is_commutative(m, b);
    vstd::arithmetic::div_mod::lemma_div_multiples_vanish(m, b);
    if a >= 0 {
        vstd::arithmetic::div_mod::lemma_div_pos_is_pos(a, b);
        vstd::arithmetic::div_mod::lemma_div_is_ordered(a, b * m, b);
    } else {
        vstd::arithmetic::div_mod::lemma_div_pos_is_pos(-a, b);
        vstd::arithmetic::div_mod::lemma_div_is_ordered(-a, b * m, b);
    }
}

} // verus!
