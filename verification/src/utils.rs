//! Viewport defaults and unit conversion.

use vstd::prelude::*;
use crate::fixed::ONE;
use crate::fixed::sat_i32;
use crate::fixed::saturate_i32;
use crate::fixed::to_pixels;
use crate::fixed::trunc_div;
use crate::fixed::whole_pixels;

verus! {

/// The width of the viewport where the platform reports none.
pub const DEFAULT_WIDTH: u32 = 640;

/// The height of the viewport where the platform reports none.
pub const DEFAULT_HEIGHT: u32 = 500;

/// The size of the viewport, width first, on a platform that does not
/// report one.
pub fn get_window_dimention() -> (size: (u32, u32))
    ensures
        size == (DEFAULT_WIDTH, DEFAULT_HEIGHT),
{
    (DEFAULT_WIDTH, DEFAULT_HEIGHT)
}

/// The size of the viewport, width first, on a platform that does not
/// report one.
pub fn get_window_dimensiton() -> (size: (u32, u32))
    ensures
        size == (DEFAULT_WIDTH, DEFAULT_HEIGHT),
{
    (DEFAULT_WIDTH, DEFAULT_HEIGHT)
}

/// The whole pixels that the normalised length `ratio` covers along an
/// extent of `total` pixels.
pub open spec fn converted(total: u32, ratio: i32) -> int {
    sat_i32(trunc_div(total * ratio, ONE as int))
}

/// Converts the normalised coordinate or delta `ratio` of a finger event to
/// whole pixels along an extent of `total` pixels, rounding toward zero.
pub fn convert(total: u32, ratio: i32) -> (px: i32)
    ensures
        px == converted(total, ratio),
{
    assert(total * ratio == ratio * total) by (nonlinear_arith);
    saturate_i32(whole_pixels(to_pixels(ratio, total)))
}

} // verus!
