//! Rectangles and points on the pixel grid.
//!
//! A rectangle is never empty, and coordinates and sizes are kept within
//! half the range of `i32`, so that the right and bottom edges of every
//! rectangle can be computed without overflow.

use vstd::prelude::*;
use crate::fixed::clamp;

verus! {

/// The largest coordinate and the largest size.
pub const MAX_INT_VALUE: i32 = 0x3fff_ffff;

/// The smallest coordinate.
pub const MIN_INT_VALUE: i32 = -0x4000_0000;

/// `v` limited to the range of coordinates.
pub open spec fn clamp_position(v: int) -> int {
    clamp(v, MIN_INT_VALUE as int, MAX_INT_VALUE as int)
}

/// `v` limited to the range of sizes, which starts at 1.
pub open spec fn clamp_size(v: int) -> int {
    clamp(v, 1, MAX_INT_VALUE as int)
}

/// A coordinate limited to the range of coordinates.
fn clamped_position(v: i64) -> (r: i32)
    ensures
        r == clamp_position(v as int),
{
    if v > MAX_INT_VALUE as i64 {
        MAX_INT_VALUE
    } else if v < MIN_INT_VALUE as i64 {
        MIN_INT_VALUE
    } else {
        v as i32
    }
}

/// A size limited to the range of sizes.
fn clamped_size(v: u32) -> (r: i32)
    ensures
        r == clamp_size(v as int),
{
    if v == 0 {
        1
    } else if v > MAX_INT_VALUE as u32 {
        MAX_INT_VALUE
    } else {
        v as i32
    }
}

/// The mathematical content of a [`Point`].
pub struct PointView {
    pub x: int,
    pub y: int,
}

/// The mathematical content of a [`Rect`].
pub struct RectView {
    pub x: int,
    pub y: int,
    pub w: int,
    pub h: int,
}

impl RectView {
    /// Whether the point `p` lies in the rectangle. The left and top edges
    /// belong to it, the right and bottom edges do not.
    pub open spec fn contains(self, p: PointView) -> bool {
        self.x <= p.x < self.x + self.w && self.y <= p.y < self.y + self.h
    }

    /// The rectangle of the same size whose centre, rounded down, is `p`.
    pub open spec fn centered_on(self, p: PointView) -> RectView {
        RectView {
            x: clamp_position(p.x - self.w / 2),
            y: clamp_position(p.y - self.h / 2),
            w: self.w,
            h: self.h,
        }
    }

    /// The centre of the rectangle, rounded down.
    pub open spec fn center(self) -> PointView {
        PointView { x: self.x + self.w / 2, y: self.y + self.h / 2 }
    }

    /// Every coordinate and size is within its range.
    pub open spec fn in_range(self) -> bool {
        &&& MIN_INT_VALUE <= self.x <= MAX_INT_VALUE
        &&& MIN_INT_VALUE <= self.y <= MAX_INT_VALUE
        &&& 1 <= self.w <= MAX_INT_VALUE
        &&& 1 <= self.h <= MAX_INT_VALUE
    }
}

/// A point on the pixel grid.
#[derive(Clone, Copy, Debug, PartialEq, Eq)]
pub struct Point {
    x: i32,
    y: i32,
}

impl View for Point {
    type V = PointView;

    closed spec fn view(&self) -> PointView {
        PointView { x: self.x as int, y: self.y as int }
    }
}

impl Point {
    #[verifier::type_invariant]
    spec fn inv(self) -> bool {
        &&& MIN_INT_VALUE <= self.x <= MAX_INT_VALUE
        &&& MIN_INT_VALUE <= self.y <= MAX_INT_VALUE
    }

    /// The point `(x, y)`, each coordinate limited to the range of
    /// coordinates.
    pub fn new(x: i32, y: i32) -> (p: Point)
        ensures
            p@ == (PointView { x: clamp_position(x as int), y: clamp_position(y as int) }),
    {
        Point { x: clamped_position(x as i64), y: clamped_position(y as i64) }
    }

    /// The horizontal coordinate.
    pub fn x(&self) -> (v: i32)
        ensures
            v == self@.x,
            MIN_INT_VALUE <= v <= MAX_INT_VALUE,
    {
        proof {
            use_type_invariant(self);
        }
        self.x
    }

    /// The vertical coordinate.
    pub fn y(&self) -> (v: i32)
        ensures
            v == self@.y,
            MIN_INT_VALUE <= v <= MAX_INT_VALUE,
    {
        proof {
            use_type_invariant(self);
        }
        self.y
    }

    /// The point shifted by `(dx, dy)`, each coordinate limited to the
    /// range of coordinates.
    pub fn offset(self, dx: i32, dy: i32) -> (p: Point)
        ensures
            p@ == (PointView {
                x: clamp_position(self@.x + dx),
                y: clamp_position(self@.y + dy),
            }),
    {
        Point {
            x: clamped_position(self.x as i64 + dx as i64),
            y: clamped_position(self.y as i64 + dy as i64),
        }
    }
}

/// A rectangle on the pixel grid that is never empty.
#[derive(Clone, Copy, Debug, PartialEq, Eq)]
pub struct Rect {
    x: i32,
    y: i32,
    w: i32,
    h: i32,
}

impl View for Rect {
    type V = RectView;

    closed spec fn view(&self) -> RectView {
        RectView { x: self.x as int, y: self.y as int, w: self.w as int, h: self.h as int }
    }
}

impl Rect {
    #[verifier::type_invariant]
    spec fn inv(self) -> bool {
        &&& MIN_INT_VALUE <= self.x <= MAX_INT_VALUE
        &&& MIN_INT_VALUE <= self.y <= MAX_INT_VALUE
        &&& 1 <= self.w <= MAX_INT_VALUE
        &&& 1 <= self.h <= MAX_INT_VALUE
    }

    /// The content of [`Rect::new`].
    pub open spec fn new_view(x: i32, y: i32, width: u32, height: u32) -> RectView {
        RectView {
            x: clamp_position(x as int),
            y: clamp_position(y as int),
            w: clamp_size(width as int),
            h: clamp_size(height as int),
        }
    }

    /// The rectangle with its upper left corner at `(x, y)` and the size
    /// `width` by `height`. Coordinates are limited to the range of
    /// coordinates; a size of 0 becomes 1, and a size beyond the largest
    /// becomes the largest.
    pub fn new(x: i32, y: i32, width: u32, height: u32) -> (r: Rect)
        ensures
            r@ == Self::new_view(x, y, width, height),
    {
        Rect {
            x: clamped_position(x as i64),
            y: clamped_position(y as i64),
            w: clamped_size(width),
            h: clamped_size(height),
        }
    }

    /// The rectangle of size `width` by `height`, limited as in
    /// [`Rect::new`], whose centre is `center`.
    pub fn from_center(center: Point, width: u32, height: u32) -> (r: Rect)
        ensures
            r@ == (RectView {
                x: 0,
                y: 0,
                w: clamp_size(width as int),
                h: clamp_size(height as int),
            }).centered_on(center@),
    {
        let w = clamped_size(width);
        let h = clamped_size(height);
        let cx = center.x();
        let cy = center.y();
        Rect {
            x: clamped_position(cx as i64 - (w / 2) as i64),
            y: clamped_position(cy as i64 - (h / 2) as i64),
            w,
            h,
        }
    }

    /// The horizontal position of the left edge.
    pub fn x(&self) -> (v: i32)
        ensures
            v == self@.x,
            self@.in_range(),
    {
        proof {
            use_type_invariant(self);
        }
        self.x
    }

    /// The vertical position of the top edge.
    pub fn y(&self) -> (v: i32)
        ensures
            v == self@.y,
            self@.in_range(),
    {
        proof {
            use_type_invariant(self);
        }
        self.y
    }

    /// The width, which is at least 1.
    pub fn width(&self) -> (v: u32)
        ensures
            v == self@.w,
            self@.in_range(),
    {
        proof {
            use_type_invariant(self);
        }
        self.w as u32
    }

    /// The height, which is at least 1.
    pub fn height(&self) -> (v: u32)
        ensures
            v == self@.h,
            self@.in_range(),
    {
        proof {
            use_type_invariant(self);
        }
        self.h as u32
    }

    /// Moves the left edge to `x`, limited to the range of coordinates.
    pub fn set_x(&mut self, x: i32)
        ensures
            final(self)@ == (RectView { x: clamp_position(x as int), ..old(self)@ }),
    {
        proof {
            use_type_invariant(&*self);
        }
        self.x = clamped_position(x as i64);
    }

    /// Moves the top edge to `y`, limited to the range of coordinates.
    pub fn set_y(&mut self, y: i32)
        ensures
            final(self)@ == (RectView { y: clamp_position(y as int), ..old(self)@ }),
    {
        proof {
            use_type_invariant(&*self);
        }
        self.y = clamped_position(y as i64);
    }

    /// Sets the width, limited to the range of sizes.
    pub fn set_width(&mut self, width: u32)
        ensures
            final(self)@ == (RectView { w: clamp_size(width as int), ..old(self)@ }),
    {
        proof {
            use_type_invariant(&*self);
        }
        self.w = clamped_size(width);
    }

    /// Sets the height, limited to the range of sizes.
    pub fn set_height(&mut self, height: u32)
        ensures
            final(self)@ == (RectView { h: clamp_size(height as int), ..old(self)@ }),
    {
        proof {
            use_type_invariant(&*self);
        }
        self.h = clamped_size(height);
    }

    /// The centre of the rectangle, rounded down.
    pub fn center(&self) -> (p: Point)
        ensures
            p@ == (PointView {
                x: clamp_position(self@.center().x),
                y: clamp_position(self@.center().y),
            }),
    {
        proof {
            use_type_invariant(self);
        }
        Point {
            x: clamped_position(self.x as i64 + (self.w / 2) as i64),
            y: clamped_position(self.y as i64 + (self.h / 2) as i64),
        }
    }

    /// Shifts the rectangle by `(dx, dy)`, its corner limited to the range
    /// of coordinates. The size stays.
    pub fn offset(&mut self, dx: i32, dy: i32)
        ensures
            final(self)@ == (RectView {
                x: clamp_position(old(self)@.x + dx),
                y: clamp_position(old(self)@.y + dy),
                ..old(self)@
            }),
    {
        proof {
            use_type_invariant(&*self);
        }
        let x = clamped_position(self.x as i64 + dx as i64);
        let y = clamped_position(self.y as i64 + dy as i64);
        self.x = x;
        self.y = y;
    }

    /// Whether the point `p` lies in the rectangle. The left and top edges
    /// belong to it, the right and bottom edges do not, so that a rectangle
    /// of 1 by 1 holds a single point.
    pub fn contains_point(&self, p: Point) -> (r: bool)
        ensures
            r == self@.contains(p@),
    {
        proof {
            use_type_invariant(self);
        }
        let px = p.x();
        let py = p.y();
        px >= self.x && px < self.x + self.w && py >= self.y && py < self.y + self.h
    }
}

} // verus!
