//! The surface table: what a slope category means for an actor standing on it.
//!
//! A tile's angle picks one of five categories by its magnitude. Each category
//! has a height profile of sixteen entries, one per pixel column of the tile,
//! and an acceleration share. A negative angle mirrors the profile.

use vstd::prelude::*;
use crate::units::{spec_sign, UNIT, PERMILLE};

verus! {

/// Width and height of a tile of the surface table, in pixels.
pub const TILE_PIXELS: i64 = 16;

/// Width and height of a tile of the surface table, in sub-pixel units.
pub const TILE_SPAN: i64 = 16000;

/// The steepest slope category.
pub const MAX_CATEGORY: i8 = 4;

/// The height a fully solid column reports, in pixels.
pub const FULL_HEIGHT: u8 = 16;

/// An angle the surface table has an entry for.
pub open spec fn valid_angle(angle: int) -> bool {
    -MAX_CATEGORY <= angle <= MAX_CATEGORY
}

/// The slope category of an angle: its magnitude.
pub open spec fn spec_category(angle: int) -> int {
    if angle < 0 {
        -angle
    } else {
        angle
    }
}

/// The height profile of a category, left column first, for a slope that
/// rises to the right.
pub open spec fn spec_profile(category: int) -> Seq<int> {
    if category == 0 {
        seq![16, 16, 16, 16, 16, 16, 16, 16, 16, 16, 16, 16, 16, 16, 16, 16]
    } else if category == 1 {
        seq![0, 1, 2, 3, 4, 5, 6, 7, 8, 9, 10, 11, 12, 13, 14, 15]
    } else if category == 2 {
        seq![8, 8, 9, 9, 10, 10, 11, 11, 12, 12, 13, 13, 14, 14, 15, 15]
    } else if category == 3 {
        seq![0, 0, 1, 1, 2, 2, 3, 3, 4, 4, 5, 5, 6, 6, 7, 7]
    } else {
        seq![13, 13, 14, 14, 14, 14, 14, 14, 14, 14, 15, 15, 15, 16, 16, 16]
    }
}

/// The walkable height, in pixels, of a tile with the given angle at pixel
/// column `column` of the tile.
pub open spec fn spec_height(angle: int, column: int) -> int
    recommends
        valid_angle(angle),
        0 <= column < TILE_PIXELS,
{
    if angle < 0 {
        spec_profile(-angle)[TILE_PIXELS - 1 - column]
    } else {
        spec_profile(angle)[column]
    }
}

/// The pixel column of its tile that a world x-coordinate falls in.
pub open spec fn spec_column(x: int) -> int {
    (x % (TILE_SPAN as int)) / (UNIT as int)
}

/// The acceleration share of a category, in thousandths.
pub open spec fn spec_accel_share(category: int) -> int {
    if category == 1 {
        500
    } else if category == 2 || category == 3 {
        250
    } else {
        0
    }
}

/// The sign of an angle: which way the slope rises.
pub open spec fn spec_angle_sign(angle: int) -> int {
    if angle < 0 {
        -1
    } else if angle > 0 {
        1
    } else {
        0
    }
}

/// The multiplier, in thousandths, that a slope of the given angle applies to
/// an actor moving with horizontal velocity `vel_x`: above one when moving
/// downhill, below one when moving uphill.
pub open spec fn spec_slope_accel(angle: int, vel_x: int) -> int {
    PERMILLE - spec_sign(vel_x) * spec_angle_sign(angle) * spec_accel_share(spec_category(angle))
}

/// The slope category of an angle.
pub fn category(angle: i8) -> (c: u8)
    requires
        valid_angle(angle as int),
    ensures
        c == spec_category(angle as int),
        c <= MAX_CATEGORY,
{
    if angle < 0 {
        (-angle) as u8
    } else {
        angle as u8
    }
}

/// One entry of a category's height profile.
fn profile_entry(category: u8, column: u8) -> (h: u8)
    requires
        category <= MAX_CATEGORY,
        column < TILE_PIXELS,
    ensures
        h == spec_profile(category as int)[column as int],
        h <= FULL_HEIGHT,
{
    let half: u8 = column / 2;
    if category == 0 {
        FULL_HEIGHT
    } else if category == 1 {
        column
    } else if category == 2 {
        8 + half
    } else if category == 3 {
        half
    } else if column < 2 {
        13
    } else if column < 10 {
        14
    } else if column < 13 {
        15
    } else {
        16
    }
}

/// The pixel column of its tile that a world x-coordinate falls in.
pub fn column_of(x: i64) -> (c: u8)
    ensures
        c == spec_column(x as int),
        c < TILE_PIXELS,
{
    let r: i64 = x % TILE_SPAN;
    let m: i64 = if r < 0 {
        r + TILE_SPAN
    } else {
        r
    };
    assert(m == (x as int) % (TILE_SPAN as int));
    (m / UNIT) as u8
}

/// The walkable height, in pixels, of a tile with the given angle at a pixel
/// column of the tile.
pub fn height(angle: i8, column: u8) -> (h: u8)
    requires
        valid_angle(angle as int),
        column < TILE_PIXELS,
    ensures
        h == spec_height(angle as int, column as int),
        h <= FULL_HEIGHT,
{
    let c: u8 = category(angle);
    if angle < 0 {
        profile_entry(c, 15 - column)
    } else {
        profile_entry(c, column)
    }
}

/// The multiplier, in thousandths, that a slope of the given angle applies to
/// an actor moving with horizontal velocity `vel_x`.
pub fn slope_accel(angle: i8, vel_x: i64) -> (m: i64)
    requires
        valid_angle(angle as int),
    ensures
        m == spec_slope_accel(angle as int, vel_x as int),
        spec_is_slope_accel(m as int),
{
    let c: u8 = category(angle);
    let share: i64 = if c == 1 {
        500
    } else if c == 2 || c == 3 {
        250
    } else {
        0
    };
    let downhill: bool = (vel_x < 0) == (angle > 0);
    if angle == 0 {
        PERMILLE
    } else if downhill {
        PERMILLE + share
    } else {
        PERMILLE - share
    }
}

/// A value that `spec_slope_accel` can take.
pub open spec fn spec_is_slope_accel(m: int) -> bool {
    m == 500 || m == 750 || m == 1000 || m == 1250 || m == 1500
}

/// A flat solid tile is sixteen pixels high at every column.
pub proof fn lemma_flat_is_full(column: int)
    requires
        0 <= column < TILE_PIXELS,
    ensures
        spec_height(0, column) == FULL_HEIGHT,
{
}

/// Negating the angle of a slope mirrors its profile: the height at column
/// `column` under `-angle` is the height at column `15 - column` under
/// `angle`.
pub proof fn lemma_mirror(angle: int, column: int)
    requires
        valid_angle(angle),
        0 <= column < TILE_PIXELS,
    ensures
        spec_height(-angle, column) == spec_height(angle, TILE_PIXELS - 1 - column),
{
}

} // verus!
