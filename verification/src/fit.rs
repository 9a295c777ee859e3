//! Fitting an image into a frame: scaled uniformly until it just fits into
//! the frame, or until it just covers it. Sizes are whole pixels, rounded
//! down, and saturate at the largest `u32`.

use vstd::prelude::*;

verus! {

/// Whether an image of `img_w` by `img_h` is relatively wider than a frame
/// of `w` by `h`.
pub open spec fn wider_than(img_w: int, img_h: int, w: int, h: int) -> bool {
    img_w * h > w * img_h
}

/// `len * num / den`, rounded down and saturating at the largest `u32`. A
/// zero denominator gives the largest `u32`, unless the numerator is zero
/// as well: then the result is 0.
pub open spec fn rescaled(len: int, num: int, den: int) -> int {
    if den == 0 {
        if len * num == 0 {
            0
        } else {
            u32::MAX as int
        }
    } else if (len * num) / den > u32::MAX {
        u32::MAX as int
    } else {
        (len * num) / den
    }
}

/// The size at which an image of `img_w` by `img_h`, scaled uniformly,
/// just covers a frame of `w` by `h`.
pub open spec fn cover_of(img_w: int, img_h: int, w: int, h: int) -> (int, int) {
    if wider_than(img_w, img_h, w, h) {
        (rescaled(h, img_w, img_h), h)
    } else {
        (w, rescaled(w, img_h, img_w))
    }
}

/// The size at which an image of `img_w` by `img_h`, scaled uniformly,
/// just fits into a frame of `w` by `h`.
pub open spec fn contain_of(img_w: int, img_h: int, w: int, h: int) -> (int, int) {
    if wider_than(img_w, img_h, w, h) {
        (w, rescaled(w, img_h, img_w))
    } else {
        (rescaled(h, img_w, img_h), h)
    }
}

/// A rescaled length is a `u32`.
pub proof fn lemma_rescaled_bounds(len: int, num: int, den: int)
    requires
        0 <= len,
        0 <= num,
        0 <= den,
    ensures
        0 <= rescaled(len, num, den) <= u32::MAX,
{
    assert(len * num >= 0) by (nonlinear_arith)
        requires
            0 <= len,
            0 <= num,
    ;
    if den > 0 {
        assert((len * num) / den >= 0) by (nonlinear_arith)
            requires
                den > 0,
                len * num >= 0,
        ;
    }
}

/// An image fitted with [`contain_of`] never exceeds the frame.
pub proof fn lemma_contain_fits(img_w: int, img_h: int, w: int, h: int)
    requires
        0 <= img_w,
        0 <= img_h,
        0 <= w <= u32::MAX,
        0 <= h <= u32::MAX,
    ensures
        0 <= contain_of(img_w, img_h, w, h).0 <= w,
        0 <= contain_of(img_w, img_h, w, h).1 <= h,
{
    if wider_than(img_w, img_h, w, h) {
        assert(img_w > 0) by (nonlinear_arith)
            requires
                img_w * h > w * img_h,
                0 <= img_w,
                0 <= w,
                0 <= img_h,
        ;
        assert(0 <= (w * img_h) / img_w <= h) by (nonlinear_arith)
            requires
                img_w * h > w * img_h,
                img_w > 0,
                0 <= w,
                0 <= img_h,
        ;
    } else if img_h == 0 {
        assert(h * img_w == 0) by (nonlinear_arith)
            requires
                img_w * h <= w * img_h,
                img_h == 0,
                0 <= img_w,
                0 <= h,
        ;
    } else {
        assert(0 <= (h * img_w) / img_h <= w) by (nonlinear_arith)
            requires
                img_w * h <= w * img_h,
                img_h > 0,
                0 <= img_w,
                0 <= h,
        ;
    }
}

/// An image with a positive width and height, fitted with [`cover_of`],
/// leaves no part of the frame uncovered.
pub proof fn lemma_cover_covers(img_w: int, img_h: int, w: int, h: int)
    requires
        0 < img_w,
        0 < img_h,
        0 <= w <= u32::MAX,
        0 <= h <= u32::MAX,
    ensures
        w <= cover_of(img_w, img_h, w, h).0 <= u32::MAX,
        h <= cover_of(img_w, img_h, w, h).1 <= u32::MAX,
{
    if wider_than(img_w, img_h, w, h) {
        assert((h * img_w) / img_h >= w) by (nonlinear_arith)
            requires
                img_w * h > w * img_h,
                img_h > 0,
        ;
    } else {
        assert((w * img_h) / img_w >= h) by (nonlinear_arith)
            requires
                img_w * h <= w * img_h,
                img_w > 0,
        ;
    }
}

/// `len * num / den`, rounded down and saturating; see [`rescaled`].
pub fn rescale(len: u32, num: u32, den: u32) -> (r: u32)
    ensures
        r == rescaled(len as int, num as int, den as int),
{
    assert(0 <= len * num <= 0xffff_ffff * 0xffff_ffff) by (nonlinear_arith)
        requires
            0 <= len <= 0xffff_ffff,
            0 <= num <= 0xffff_ffff,
    ;
    let p: u64 = (len as u64) * (num as u64);
    if den == 0 {
        if p == 0 {
            0
        } else {
            u32::MAX
        }
    } else {
        let q: u64 = p / (den as u64);
        if q > u32::MAX as u64 {
            u32::MAX
        } else {
            q as u32
        }
    }
}

/// Whether an image of `img_w` by `img_h` is relatively wider than a frame
/// of `w` by `h`.
pub fn is_wider_than(img_w: u32, img_h: u32, w: u32, h: u32) -> (r: bool)
    ensures
        r == wider_than(img_w as int, img_h as int, w as int, h as int),
{
    assert(0 <= img_w * h <= 0xffff_ffff * 0xffff_ffff) by (nonlinear_arith)
        requires
            0 <= img_w <= 0xffff_ffff,
            0 <= h <= 0xffff_ffff,
    ;
    assert(0 <= w * img_h <= 0xffff_ffff * 0xffff_ffff) by (nonlinear_arith)
        requires
            0 <= w <= 0xffff_ffff,
            0 <= img_h <= 0xffff_ffff,
    ;
    (img_w as u64) * (h as u64) > (w as u64) * (img_h as u64)
}

} // verus!
