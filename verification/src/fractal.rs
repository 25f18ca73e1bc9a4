//! Escape-time evaluation of the Mandelbrot recurrence, in fixed point.
//!
//! For a point `c` the recurrence `z := (z.x^2 - z.y^2, 2 z.x z.y) + c`
//! starts at `z = (0, 0)` and runs until `|z| > 4` (checked as
//! `z.x^2 + z.y^2 > 16`) or until the iteration limit is passed. The pixel
//! is shaded by the integer quotient of the escape index over the limit —
//! 0 for every early escape, 1 only at the very last step — or solid white
//! when the point never escapes.

use vstd::prelude::*;
use crate::fixed::FIX_ONE;
use crate::fixed::tdiv;
use crate::fixed::div_fix;
use crate::fixed::lemma_tdiv_bound;

verus! {

/// Squared fixed-point escape radius: `(4 * FIX_ONE)^2`.
pub const ESCAPE_SQ: i64 = 16 * 65536 * 65536;

/// Largest fixed-point magnitude of a coordinate of `c` the evaluation
/// accepts; keeps every intermediate product inside `i64`.
pub const C_BOUND: i64 = 1073741824;

/// Whether `z` has left the escape radius: `|z| > 4` in fixed point.
pub open spec fn escaped(zx: int, zy: int) -> bool {
    zx * zx + zy * zy > ESCAPE_SQ
}

/// The x coordinate of the next `z`.
pub open spec fn iter_x(zx: int, zy: int, cx: int) -> int {
    tdiv(zx * zx - zy * zy, FIX_ONE as int) + cx
}

/// The y coordinate of the next `z`.
pub open spec fn iter_y(zx: int, zy: int, cy: int) -> int {
    tdiv(2 * (zx * zy), FIX_ONE as int) + cy
}

/// Index at which the recurrence escapes when continued from `z` at step
/// `i`, or `None` when it stays inside through step `limit`.
pub open spec fn escape_from(zx: int, zy: int, cx: int, cy: int, i: nat, limit: nat) -> Option<
    nat,
>
    decreases limit + 1 - i,
{
    if i > limit {
        None
    } else {
        let nx = iter_x(zx, zy, cx);
        let ny = iter_y(zx, zy, cy);
        if escaped(nx, ny) {
            Some(i)
        } else {
            escape_from(nx, ny, cx, cy, i + 1, limit)
        }
    }
}

/// Index at which the point `c` escapes, or `None` when it never does
/// within the limit.
pub open spec fn escape_index_spec(cx: int, cy: int, limit: nat) -> Option<nat> {
    escape_from(0, 0, cx, cy, 0, limit)
}

/// Run the escape-time recurrence for the point `c`, both coordinates in
/// fixed point. Returns the escape index, or `None` when the point stays
/// inside the radius through the whole limit.
pub fn escape_index(cx: i64, cy: i64, limit: u32) -> (r: Option<u32>)
    requires
        -C_BOUND <= cx <= C_BOUND,
        -C_BOUND <= cy <= C_BOUND,
    ensures
        (r is None) == (escape_index_spec(cx as int, cy as int, limit as nat) is None),
        r matches Some(i) ==> escape_index_spec(cx as int, cy as int, limit as nat) == Some(
            i as nat,
        ),
        r matches Some(i) ==> i <= limit,
{
    let mut zx: i64 = 0;
    let mut zy: i64 = 0;
    let mut i: u64 = 0;
    let lim: u64 = limit as u64;
    while i <= lim
        invariant
            -C_BOUND <= cx <= C_BOUND,
            -C_BOUND <= cy <= C_BOUND,
            lim == limit,
            0 <= i <= lim + 1,
            zx * zx + zy * zy <= ESCAPE_SQ,
            escape_from(zx as int, zy as int, cx as int, cy as int, i as nat, lim as nat)
                == escape_index_spec(cx as int, cy as int, limit as nat),
        decreases lim + 1 - i,
    {
        proof {
            assert(zx * zx >= 0 && zy * zy >= 0 && 2 * (zx * zy) <= zx * zx + zy * zy && -(zx * zx
                + zy * zy) <= 2 * (zx * zy)) by (nonlinear_arith);
            lemma_tdiv_bound(zx * zx - zy * zy, FIX_ONE as int, 16 * 65536int);
            lemma_tdiv_bound(2 * (zx * zy), FIX_ONE as int, 16 * 65536int);
        }
        let dif: i64 = zx * zx - zy * zy;
        let cross: i64 = 2 * (zx * zy);
        let nx: i64 = div_fix(dif) + cx;
        let ny: i64 = div_fix(cross) + cy;
        proof {
            assert(nx * nx + ny * ny <= 2 * (1048576 + 1073741824) * (1048576 + 1073741824)
                && nx * nx >= 0 && ny * ny >= 0) by (nonlinear_arith)
                requires
                    -1048576 - 1073741824 <= nx <= 1048576 + 1073741824,
                    -1048576 - 1073741824 <= ny <= 1048576 + 1073741824,
            ;
        }
        let sq: i64 = nx * nx + ny * ny;
        if sq > ESCAPE_SQ {
            return Some(i as u32);
        }
        zx = nx;
        zy = ny;
        i = i + 1;
    }
    None
}

/// Largest fixed-point zoom value `pixel_to_c` accepts.
pub const ZOOM_CAP: i64 = 536870912;

/// Largest fixed-point offset magnitude `pixel_to_c` accepts.
pub const OFFSET_CAP: i64 = 536870912;

/// One coordinate of the point a quad position maps to: `p * zoom + offset`.
pub open spec fn to_c_spec(p: int, zf: int, off: int) -> int {
    tdiv(p * zf, FIX_ONE as int) + off
}

/// Map a normalized quad position `p` (each coordinate within one unit) to
/// the fractal-space point `p * zoom + offset`, all in fixed point. The
/// result is small enough to hand to `escape_index`.
pub fn pixel_to_c(px: i64, py: i64, zf: i64, ox: i64, oy: i64) -> (c: (i64, i64))
    requires
        -FIX_ONE <= px <= FIX_ONE,
        -FIX_ONE <= py <= FIX_ONE,
        0 <= zf <= ZOOM_CAP,
        -OFFSET_CAP <= ox <= OFFSET_CAP,
        -OFFSET_CAP <= oy <= OFFSET_CAP,
    ensures
        c.0 == to_c_spec(px as int, zf as int, ox as int),
        c.1 == to_c_spec(py as int, zf as int, oy as int),
        -C_BOUND <= c.0 <= C_BOUND,
        -C_BOUND <= c.1 <= C_BOUND,
{
    proof {
        assert(-(536870912 * 65536) <= px * zf <= 536870912 * 65536 && -(536870912 * 65536) <= py
            * zf <= 536870912 * 65536) by (nonlinear_arith)
            requires
                -65536 <= px <= 65536,
                -65536 <= py <= 65536,
                0 <= zf <= 536870912,
        ;
        lemma_tdiv_bound(px * zf, FIX_ONE as int, 536870912int);
        lemma_tdiv_bound(py * zf, FIX_ONE as int, 536870912int);
    }
    let cx: i64 = div_fix(px * zf) + ox;
    let cy: i64 = div_fix(py * zf) + oy;
    (cx, cy)
}

/// Grayscale shade of one pixel, each channel 0 or 1: the quotient of the
/// escape index over the limit on escape, or solid white inside the set.
#[derive(Clone, Copy, PartialEq, Eq, Structural, Debug)]
pub struct Rgba {
    pub red: u32,
    pub green: u32,
    pub blue: u32,
    pub alpha: u32,
}

/// The color the shader writes for the point `c`.
pub open spec fn shade_spec(cx: int, cy: int, limit: nat) -> Rgba
    recommends
        limit > 0,
{
    match escape_index_spec(cx, cy, limit) {
        Option::None => Rgba { red: 1, green: 1, blue: 1, alpha: 1 },
        Option::Some(i) => Rgba {
            red: (i / limit) as u32,
            green: (i / limit) as u32,
            blue: (i / limit) as u32,
            alpha: 1,
        },
    }
}

/// Shade the point `c`: white when it never escapes, else the gray level
/// `escape index / limit`, divided as integers.
pub fn pixel_color(cx: i64, cy: i64, limit: u32) -> (c: Rgba)
    requires
        limit >= 1,
        -C_BOUND <= cx <= C_BOUND,
        -C_BOUND <= cy <= C_BOUND,
    ensures
        c == shade_spec(cx as int, cy as int, limit as nat),
{
    match escape_index(cx, cy, limit) {
        Option::None => Rgba { red: 1, green: 1, blue: 1, alpha: 1 },
        Option::Some(i) => {
            let g: u32 = i / limit;
            Rgba { red: g, green: g, blue: g, alpha: 1 }
        },
    }
}

/// From the quad center under the default view, `c == (0, 0)`, and there
/// `z` stays at the origin forever: the point never escapes, at any limit,
/// and the pixel is shaded solid white.
pub proof fn lemma_origin_never_escapes(limit: nat)
    ensures
        escape_index_spec(0, 0, limit) is None,
        shade_spec(0, 0, limit) == (Rgba { red: 1, green: 1, blue: 1, alpha: 1 }),
{
    lemma_origin_escape_from(0, limit);
}

proof fn lemma_origin_escape_from(i: nat, limit: nat)
    ensures
        escape_from(0, 0, 0, 0, i, limit) is None,
    decreases limit + 1 - i,
{
    if i <= limit {
        assert(iter_x(0, 0, 0) == 0);
        assert(iter_y(0, 0, 0) == 0);
        assert(!escaped(0, 0));
        lemma_origin_escape_from(i + 1, limit);
    }
}

} // verus!
