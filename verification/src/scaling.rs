//! Device scale factor applied to sizes at builder time.
use crate::geometry::{saturate, saturated, RectOffset, Vec2};
use vstd::prelude::*;

verus! {

/// Factor by which every size, margin, padding and font size is multiplied.
pub const SCALE_MULTIPLIER: u32 = 1;

/// Font size of a label where none is set.
pub const DEFAULT_FONT_SIZE: u16 = 16;

/// `value` times the scale factor.
pub open spec fn scaled(value: int) -> int {
    value * (SCALE_MULTIPLIER as int)
}

/// `value` times the scale factor, held to the range of `u32`.
pub open spec fn scaled_length(value: u32) -> u32 {
    if scaled(value as int) > u32::MAX {
        u32::MAX
    } else {
        scaled(value as int) as u32
    }
}

/// Scales one length.
pub fn scale(value: u32) -> (r: u32)
    ensures
        r == scaled_length(value),
{
    assert(0 <= value as int * SCALE_MULTIPLIER as int <= 0xffff_ffff * 0xffff_ffff) by (nonlinear_arith)
        requires
            0 <= value <= 0xffff_ffff,
            0 <= SCALE_MULTIPLIER <= 0xffff_ffff,
    ;
    let wide: u64 = value as u64 * SCALE_MULTIPLIER as u64;
    if wide > u32::MAX as u64 {
        u32::MAX
    } else {
        wide as u32
    }
}

/// Scales the two coordinates of a vector.
pub fn scale_vec2(x: i64, y: i64) -> (v: Vec2)
    ensures
        v.x == saturated(scaled(x as int)),
        v.y == saturated(scaled(y as int)),
{
    Vec2 {
        x: saturate(x as i128 * SCALE_MULTIPLIER as i128),
        y: saturate(y as i128 * SCALE_MULTIPLIER as i128),
    }
}

/// Scales the four sides of an offset.
pub fn scale_rect(left: u32, right: u32, top: u32, bottom: u32) -> (r: RectOffset)
    ensures
        r == (RectOffset {
            left: scaled_length(left),
            right: scaled_length(right),
            top: scaled_length(top),
            bottom: scaled_length(bottom),
        }),
{
    RectOffset { left: scale(left), right: scale(right), top: scale(top), bottom: scale(bottom) }
}

} // verus!
