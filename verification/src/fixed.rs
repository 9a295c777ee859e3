//! Fixed-point arithmetic with six decimal places.
//!
//! A quantity `q` is stored as the integer `q * ONE`. Normalised viewport
//! coordinates, zoom factors and sub-pixel lengths all use this unit, so that
//! a normalised length times a viewport extent in whole pixels is a sub-pixel
//! length without any rounding.

use vstd::prelude::*;

verus! {

/// The fixed-point representation of 1.
pub const ONE: i64 = 1_000_000;

/// Quotient of `a` by `b`, rounded toward zero.
pub open spec fn trunc_div(a: int, b: int) -> int
    recommends
        b > 0,
{
    if a >= 0 {
        a / b
    } else {
        -((-a) / b)
    }
}

/// `v` limited to the closed interval `[lo, hi]`.
pub open spec fn clamp(v: int, lo: int, hi: int) -> int
    recommends
        lo <= hi,
{
    if v < lo {
        lo
    } else if v > hi {
        hi
    } else {
        v
    }
}

/// Absolute value.
pub open spec fn abs(v: int) -> int {
    if v < 0 {
        -v
    } else {
        v
    }
}

/// Sign of `v`: -1, 0 or 1.
pub open spec fn signum(v: int) -> int {
    if v < 0 {
        -1
    } else if v > 0 {
        1
    } else {
        0
    }
}

/// `v` limited to the range of `i32`.
pub open spec fn sat_i32(v: int) -> int {
    clamp(v, i32::MIN as int, i32::MAX as int)
}

/// Narrows a value, saturating at the bounds of `i32`.
pub fn saturate_i32(v: i64) -> (r: i32)
    ensures
        r == sat_i32(v as int),
{
    if v < i32::MIN as i64 {
        i32::MIN
    } else if v > i32::MAX as i64 {
        i32::MAX
    } else {
        v as i32
    }
}

/// Converts a normalised length to a sub-pixel length along a viewport
/// extent given in whole pixels. The product is exact.
pub fn to_pixels(norm: i32, extent: u32) -> (r: i64)
    ensures
        r == norm * extent,
{
    assert(-0x8000_0000 * 0xffff_ffff <= norm * extent <= 0x7fff_ffff * 0xffff_ffff)
        by (nonlinear_arith)
        requires
            -0x8000_0000 <= norm <= 0x7fff_ffff,
            0 <= extent <= 0xffff_ffff,
    ;
    (norm as i64) * (extent as i64)
}

/// The whole-pixel part of a sub-pixel length, rounded toward zero.
pub fn whole_pixels(v: i64) -> (r: i64)
    ensures
        r == trunc_div(v as int, ONE as int),
{
    v / ONE
}

} // verus!
