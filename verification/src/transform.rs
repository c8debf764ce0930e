//! The two output spaces of a grid coordinate: the display space, which is
//! offset and scaled down, and the export space, which is the grid itself.

use vstd::prelude::*;
use crate::geometry::{GridPoint, Point};

verus! {

/// Distance between the display's left edge and grid column zero.
pub const LEFT_OFFSET: i32 = 100;

/// Distance between the display's top edge and grid row zero.
pub const TOP_OFFSET: i32 = 100;

/// Grid units per horizontal step and per horizontal grid cell.
pub const HORIZONTAL_FACTOR: i32 = 100;

/// Grid units per vertical step and per vertical grid cell.
pub const VERTICAL_FACTOR: i32 = 100;

/// Numerator of the display scale.
pub const RENDER_NUMERATOR: i32 = 1;

/// Denominator of the display scale.
pub const RENDER_DENOMINATOR: i32 = 2;

/// Quotient of `a` by a positive `b`, rounded toward zero.
pub open spec fn div_toward_zero(a: int, b: int) -> int
    recommends
        b > 0,
{
    if a >= 0 {
        a / b
    } else {
        -((-a) / b)
    }
}

/// A length in grid units, brought to display scale.
pub open spec fn scaled(value: int) -> int {
    div_toward_zero(value * (RENDER_NUMERATOR as int), RENDER_DENOMINATOR as int)
}

/// Where a grid coordinate lies on the display: shifted by the offsets, then
/// scaled.
pub open spec fn display_of(p: GridPoint) -> GridPoint {
    GridPoint { x: scaled(LEFT_OFFSET + p.x), y: scaled(TOP_OFFSET + p.y) }
}

/// Scales a length that is wide enough to hold any sum of two grid lengths.
pub(crate) fn scale_wide(value: i64) -> (r: i64)
    requires
        -0x1_0000_0000 <= value <= 0x1_0000_0000,
    ensures
        r == scaled(value as int),
        value >= 0 ==> 0 <= r <= value,
        value <= 0 ==> value <= r <= 0,
{
    let numerator: i64 = RENDER_NUMERATOR as i64;
    let denominator: i64 = RENDER_DENOMINATOR as i64;
    assert(numerator == 1 && denominator == 2);
    let wide: i64 = value * numerator;
    if wide >= 0 {
        wide / denominator
    } else {
        -((-wide) / denominator)
    }
}

/// Brings a length in grid units to display scale, rounding toward zero.
pub fn scale(value: i32) -> (r: i32)
    ensures
        r == scaled(value as int),
{
    scale_wide(value as i64) as i32
}

/// Display coordinate of the sum of two grid lengths. The sum is formed
/// without overflow, and the scaled sum always fits again.
pub fn scale_sum(a: i32, b: i32) -> (r: i32)
    ensures
        r == scaled(a + b),
{
    scale_wide((a as i64) + (b as i64)) as i32
}

/// Maps a grid coordinate to the display.
pub fn to_display(p: Point) -> (d: Point)
    ensures
        d@ == display_of(p@),
{
    Point { x: scale_sum(LEFT_OFFSET, p.x), y: scale_sum(TOP_OFFSET, p.y) }
}

/// Maps a grid coordinate to the export space, which is the grid itself.
pub fn to_export(p: Point) -> (e: Point)
    ensures
        e == p,
{
    p
}

} // verus!
