//! Fixed-point world coordinates.
//!
//! Every position, velocity and distance of the simulation is a whole number of
//! sub-pixel units; one pixel is `UNIT` of them. Rates (friction, acceleration,
//! air control) are whole numbers of thousandths.

use vstd::prelude::*;

verus! {

/// Sub-pixel units per pixel.
pub const UNIT: i64 = 1000;

/// What a rate of exactly one is, in thousandths.
pub const PERMILLE: i64 = 1000;

/// Largest magnitude a world coordinate can take, in sub-pixel units.
pub const COORD_MAX: i64 = 4_000_000_000_000;

/// Largest magnitude a velocity or a rate can take.
pub const RATE_MAX: i64 = 1_000_000;

/// A value that can stand for a world coordinate.
pub open spec fn is_coord(v: int) -> bool {
    -COORD_MAX <= v <= COORD_MAX
}

/// A value that can stand for a velocity or a rate.
pub open spec fn is_rate(v: int) -> bool {
    -RATE_MAX <= v <= RATE_MAX
}

/// `v` brought into the range of world coordinates.
pub open spec fn spec_clamp_coord(v: int) -> int {
    if v < -COORD_MAX {
        -(COORD_MAX as int)
    } else if v > COORD_MAX {
        COORD_MAX as int
    } else {
        v
    }
}

/// Division that rounds towards zero.
pub open spec fn spec_trunc_div(a: int, b: int) -> int
    recommends
        b > 0,
{
    if a >= 0 {
        a / b
    } else {
        -((-a) / b)
    }
}

/// `v` multiplied by a rate in thousandths, rounded towards zero.
pub open spec fn spec_scale(v: int, permille: int) -> int {
    spec_trunc_div(v * permille, PERMILLE as int)
}

/// The sign of a velocity: a velocity of zero counts as rightward.
pub open spec fn spec_sign(v: int) -> int {
    if v < 0 {
        -1
    } else {
        1
    }
}

/// The pixel a coordinate falls on, as the renderer addresses it: pixels left
/// of or above the origin collapse to 0, pixels beyond 65535 to 65535.
pub open spec fn spec_to_pixel(v: int) -> int {
    if v < 0 {
        0
    } else if v / (UNIT as int) > 65535 {
        65535
    } else {
        v / (UNIT as int)
    }
}

/// The magnitude of `v`.
pub open spec fn spec_abs(v: int) -> int {
    if v < 0 {
        -v
    } else {
        v
    }
}

/// Adds two coordinates and brings the sum back into the coordinate range.
pub fn add_clamped(a: i64, b: i64) -> (r: i64)
    ensures
        r == spec_clamp_coord(a + b),
        is_coord(r as int),
{
    let s: i128 = (a as i128) + (b as i128);
    if s < -(COORD_MAX as i128) {
        -COORD_MAX
    } else if s > COORD_MAX as i128 {
        COORD_MAX
    } else {
        s as i64
    }
}

/// Brings a value into the range of world coordinates.
pub fn clamp_coord(v: i64) -> (r: i64)
    ensures
        r == spec_clamp_coord(v as int),
        is_coord(r as int),
{
    if v < -COORD_MAX {
        -COORD_MAX
    } else if v > COORD_MAX {
        COORD_MAX
    } else {
        v
    }
}

/// Multiplies a velocity by a rate given in thousandths.
pub fn scale(v: i64, permille: i64) -> (r: i64)
    requires
        is_coord(v as int),
        is_rate(permille as int),
    ensures
        r == spec_scale(v as int, permille as int),
{
    assert(-4_000_000_000_000_000_000 <= v * permille <= 4_000_000_000_000_000_000) by (nonlinear_arith)
        requires
            -4_000_000_000_000 <= v <= 4_000_000_000_000,
            -1_000_000 <= permille <= 1_000_000,
    ;
    let p: i64 = v * permille;
    if p >= 0 {
        p / PERMILLE
    } else {
        -((-p) / PERMILLE)
    }
}

/// The pixel a coordinate falls on, for the renderer.
pub fn to_pixel(v: i64) -> (r: u16)
    ensures
        r == spec_to_pixel(v as int),
{
    if v < 0 {
        0
    } else {
        let px: i64 = v / UNIT;
        if px > 65535 {
            65535
        } else {
            px as u16
        }
    }
}

} // verus!
