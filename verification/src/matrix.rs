//! The orthographic projection matrix uploaded to the vertex shader.
//!
//! The matrix maps display space (top-left origin, y growing downward) to
//! clip space. Its entries are exact rationals over the fixed-point
//! coordinate units; the shell converts them to the device's number format
//! when it fills the constant buffer.

use vstd::prelude::*;

use crate::coord::Coord;
use crate::coord::COORD_SCALE;

verus! {

/// An exact rational number `num / den`, with a positive denominator.
#[derive(Clone, Copy, PartialEq, Eq, Structural, Debug)]
pub struct Rat {
    pub num: i64,
    pub den: i64,
}

/// A 4x4 matrix of exact rationals, in row-major order: row `r` of the
/// matrix is `mRc` for columns `c` in 0..4. Points are mapped as row
/// vectors: `clip = [x, y, 0, 1] * M`.
#[derive(Clone, Copy, PartialEq, Eq, Structural, Debug)]
pub struct Mat4 {
    pub m00: Rat, pub m01: Rat, pub m02: Rat, pub m03: Rat,
    pub m10: Rat, pub m11: Rat, pub m12: Rat, pub m13: Rat,
    pub m20: Rat, pub m21: Rat, pub m22: Rat, pub m23: Rat,
    pub m30: Rat, pub m31: Rat, pub m32: Rat, pub m33: Rat,
}

/// The orthographic projection for a display whose origin is `(l, t)` and
/// whose size is `(w, h)`, all in coordinate units.
///
/// With `r = l + w` and `b = t + h` in display units, this is
/// ```text
/// [[2/(r-l),     0,            0,   0],
///  [0,           2/(t-b),      0,   0],
///  [0,           0,            1/2, 0],
///  [(r+l)/(l-r), (t+b)/(b-t),  1/2, 1]]
/// ```
/// written over the units directly (a display unit is `COORD_SCALE`
/// units).
pub open spec fn spec_ortho(l: int, t: int, w: int, h: int) -> Mat4 {
    Mat4 {
        m00: Rat { num: (2 * COORD_SCALE) as i64, den: w as i64 },
        m01: Rat { num: 0, den: 1 },
        m02: Rat { num: 0, den: 1 },
        m03: Rat { num: 0, den: 1 },
        m10: Rat { num: 0, den: 1 },
        m11: Rat { num: (-2 * COORD_SCALE) as i64, den: h as i64 },
        m12: Rat { num: 0, den: 1 },
        m13: Rat { num: 0, den: 1 },
        m20: Rat { num: 0, den: 1 },
        m21: Rat { num: 0, den: 1 },
        m22: Rat { num: 1, den: 2 },
        m23: Rat { num: 0, den: 1 },
        m30: Rat { num: (-(2 * l + w)) as i64, den: w as i64 },
        m31: Rat { num: (2 * t + h) as i64, den: h as i64 },
        m32: Rat { num: 1, den: 2 },
        m33: Rat { num: 1, den: 1 },
    }
}

/// Builds the projection matrix for a display with origin `(l, t)` and
/// positive size `(w, h)`.
pub fn ortho_matrix(l: Coord, t: Coord, w: Coord, h: Coord) -> (m: Mat4)
    requires
        l.in_range(),
        t.in_range(),
        w.in_range(),
        h.in_range(),
        w.units > 0,
        h.units > 0,
    ensures
        m == spec_ortho(l.units as int, t.units as int, w.units as int, h.units as int),
{
    let zero = Rat { num: 0, den: 1 };
    Mat4 {
        m00: Rat { num: 2 * COORD_SCALE, den: w.units },
        m01: zero,
        m02: zero,
        m03: zero,
        m10: zero,
        m11: Rat { num: -2 * COORD_SCALE, den: h.units },
        m12: zero,
        m13: zero,
        m20: zero,
        m21: zero,
        m22: Rat { num: 1, den: 2 },
        m23: zero,
        m30: Rat { num: -(2 * l.units + w.units), den: w.units },
        m31: Rat { num: 2 * t.units + h.units, den: h.units },
        m32: Rat { num: 1, den: 2 },
        m33: Rat { num: 1, den: 1 },
    }
}

/// The clip-space x coordinate of a display point with x units `xu`, as
/// an exact rational `(numerator, denominator)`: the row-vector product
/// picks up `x * m00 + m30`, with `x = xu / COORD_SCALE`, brought to the
/// common denominator.
pub open spec fn mapped_x(m: Mat4, xu: int) -> (int, int) {
    (xu * m.m00.num * m.m30.den + COORD_SCALE * m.m30.num * m.m00.den,
        COORD_SCALE * m.m00.den * m.m30.den)
}

/// The clip-space y coordinate of a display point with y units `yu`, as
/// an exact rational: the row-vector product picks up `y * m11 + m31`.
pub open spec fn mapped_y(m: Mat4, yu: int) -> (int, int) {
    (yu * m.m11.num * m.m31.den + COORD_SCALE * m.m31.num * m.m11.den,
        COORD_SCALE * m.m11.den * m.m31.den)
}

/// Whether the rational `p` equals the integer `k`.
pub open spec fn frac_is_int(p: (int, int), k: int) -> bool {
    p.1 > 0 && p.0 == k * p.1
}

/// Projection correctness: the matrix maps the display rectangle's
/// corners to the clip-space corners with the y axis flipped. The
/// top-left display corner `(l, t)` maps to clip `(-1, 1)` and the
/// bottom-right corner `(l + w, t + h)` maps to clip `(1, -1)`.
pub proof fn lemma_ortho_maps_corners(l: int, t: int, w: int, h: int)
    requires
        -0x1_0000_0000 <= l <= 0x1_0000_0000,
        -0x1_0000_0000 <= t <= 0x1_0000_0000,
        0 < w <= 0x1_0000_0000,
        0 < h <= 0x1_0000_0000,
    ensures
        frac_is_int(mapped_x(spec_ortho(l, t, w, h), l), -1),
        frac_is_int(mapped_y(spec_ortho(l, t, w, h), t), 1),
        frac_is_int(mapped_x(spec_ortho(l, t, w, h), l + w), 1),
        frac_is_int(mapped_y(spec_ortho(l, t, w, h), t + h), -1),
{
    let m = spec_ortho(l, t, w, h);
    let sc = COORD_SCALE as int;
    assert(m.m00.den == w && m.m30.den == w && m.m11.den == h && m.m31.den == h);
    assert(m.m00.num == 2 * sc && m.m30.num == -(2 * l + w));
    assert(m.m11.num == -2 * sc && m.m31.num == 2 * t + h);
    assert(l * (2 * sc) * w + sc * (-(2 * l + w)) * w == -1 * (sc * w * w))
        by (nonlinear_arith);
    assert((l + w) * (2 * sc) * w + sc * (-(2 * l + w)) * w == 1 * (sc * w * w))
        by (nonlinear_arith);
    assert(t * (-2 * sc) * h + sc * (2 * t + h) * h == 1 * (sc * h * h))
        by (nonlinear_arith);
    assert((t + h) * (-2 * sc) * h + sc * (2 * t + h) * h == -1 * (sc * h * h))
        by (nonlinear_arith);
    assert(sc * w * w > 0) by (nonlinear_arith)
        requires w > 0, sc == 256;
    assert(sc * h * h > 0) by (nonlinear_arith)
        requires h > 0, sc == 256;
}

} // verus!
