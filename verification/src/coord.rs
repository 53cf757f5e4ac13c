//! Display-space coordinates.
//!
//! The GUI library hands the renderer display positions, sizes and scale
//! factors. The verified core represents such a scalar as a fixed-point
//! number: a count of 1/256ths of a display unit. Pixel-valued and other
//! dyadic coordinates convert exactly; the shell converts at the boundary.

use vstd::prelude::*;

verus! {

/// Fixed-point denominator: coordinate units per display unit.
pub const COORD_SCALE: i64 = 256;

/// Magnitude bound on coordinate units accepted into a frame
/// (16 million display units, far beyond any display).
pub const COORD_LIMIT: i64 = 0x1_0000_0000;

/// One display-space scalar, as `units / 256` display units.
#[derive(Clone, Copy, PartialEq, Eq, Structural, Debug)]
pub struct Coord {
    pub units: i64,
}

impl Coord {
    /// The scalar `units / 256`.
    pub fn from_units(units: i64) -> (c: Coord)
        ensures
            c.units == units,
    {
        Coord { units }
    }

    /// Bounded magnitude, required of every coordinate a frame carries.
    pub open spec fn in_range(self) -> bool {
        -COORD_LIMIT <= self.units <= COORD_LIMIT
    }

    /// Whether the scalar is strictly positive.
    pub fn is_positive(&self) -> (r: bool)
        ensures
            r == (self.units > 0),
    {
        self.units > 0
    }
}

/// A device scissor rectangle, in integer pixel coordinates.
#[derive(Clone, Copy, PartialEq, Eq, Structural, Debug)]
pub struct ScissorRect {
    pub left: i32,
    pub top: i32,
    pub right: i32,
    pub bottom: i32,
}

/// Division truncating toward zero, for a positive divisor: the result of
/// dropping the fractional part of `a / b`, as the device coordinate
/// conversion does.
pub open spec fn trunc_div(a: int, b: int) -> int {
    if a >= 0 {
        a / b
    } else {
        -((-a) / b)
    }
}

/// Saturation to the 32-bit signed range.
pub open spec fn clamp_i32(a: int) -> int {
    if a < i32::MIN {
        i32::MIN as int
    } else if a > i32::MAX {
        i32::MAX as int
    } else {
        a
    }
}

/// One scissor coordinate: the clip coordinate shifted by the display
/// origin, scaled by the framebuffer scale, truncated toward zero and
/// saturated to the 32-bit range.
pub open spec fn spec_scissor_component(c: int, off: int, scale: int) -> int {
    clamp_i32(trunc_div((c - off) * scale, COORD_SCALE * COORD_SCALE))
}

/// Computes one scissor coordinate from a clip coordinate, the display
/// origin and the framebuffer scale.
pub fn scissor_component(c: Coord, off: Coord, scale: Coord) -> (r: i32)
    requires
        c.in_range(),
        off.in_range(),
        scale.in_range(),
    ensures
        r == spec_scissor_component(c.units as int, off.units as int, scale.units as int),
{
    let diff: i128 = c.units as i128 - off.units as i128;
    let s: i128 = scale.units as i128;
    assert(-0x4_0000_0000_0000_0000_0000 <= diff * s <= 0x4_0000_0000_0000_0000_0000)
        by (nonlinear_arith)
        requires
            -0x2_0000_0000 <= diff <= 0x2_0000_0000,
            -0x1_0000_0000 <= s <= 0x1_0000_0000;
    let prod: i128 = diff * s;
    let q: i128 = if prod >= 0 {
        ((prod as u128) / 65536u128) as i128
    } else {
        -(((-prod) as u128 / 65536u128) as i128)
    };
    assert(q == trunc_div((c.units - off.units) * scale.units, COORD_SCALE * COORD_SCALE));
    if q < i32::MIN as i128 {
        i32::MIN
    } else if q > i32::MAX as i128 {
        i32::MAX
    } else {
        q as i32
    }
}

} // verus!
