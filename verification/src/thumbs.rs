//! The mathematics of the thumbnail grid: rows of square thumbnails of equal
//! size, separated from each other and from the edge by a gap.

use vstd::prelude::*;
use crate::actions::Action;
use crate::gesture::GestureEvent;
use crate::rect::clamp_position;
use crate::rect::clamp_size;
use crate::rect::PointView;
use crate::rect::RectView;
use crate::utils::converted;

verus! {

/// The smallest width of a thumbnail.
pub const THUMB_W: u32 = 100;

/// The height of a thumbnail as it is asked for.
pub const THUMB_H: u32 = 100;

/// The gap between thumbnails, and between thumbnails and the edge.
pub const THUMB_GAP: u32 = 10;

/// The width of the viewport without the gap at the left edge.
pub open spec fn usable_width(width: int) -> int {
    if width > THUMB_GAP {
        width - THUMB_GAP
    } else {
        0
    }
}

/// The number of thumbnails in a row: as many as fit at their smallest
/// width, each with its gap, and one if not even one fits.
pub open spec fn per_row(width: int) -> int {
    let n = usable_width(width) / (THUMB_GAP + THUMB_W) as int;
    if n < 1 {
        1
    } else {
        n
    }
}

/// The side of a thumbnail: the usable width is shared out evenly among
/// the thumbnails of a row, and each gives up a gap.
pub open spec fn thumb_side(width: int) -> int {
    let share = usable_width(width) / per_row(width);
    if share > THUMB_GAP {
        share - THUMB_GAP
    } else {
        0
    }
}

/// `v` limited to the range of `u32`.
pub open spec fn sat_u32(v: int) -> int {
    if v > u32::MAX {
        u32::MAX as int
    } else {
        v
    }
}

/// The centre of the thumbnail at position `i` of a grid with `n`
/// thumbnails of `w` by `h` pixels in a row, each coordinate saturating.
pub open spec fn center_of(n: int, w: int, h: int, i: int) -> (int, int)
    recommends
        n > 0,
{
    (
        sat_u32(THUMB_GAP + w / 2 + (w + THUMB_GAP) * (i % n)),
        sat_u32(THUMB_GAP + h / 2 + (h + THUMB_GAP) * (i / n)),
    )
}

/// The frame of the thumbnail at position `i` in a viewport that is
/// `width` pixels wide.
pub open spec fn frame_of(width: int, i: int) -> RectView {
    let side = thumb_side(width);
    let c = center_of(per_row(width), side, side, i);
    (RectView { x: 0, y: 0, w: clamp_size(side), h: clamp_size(side) }).centered_on(
        PointView { x: clamp_position(c.0), y: clamp_position(c.1) },
    )
}

/// Whether the thumbnail at position `i` is under the point `(x, y)`.
pub open spec fn is_under(width: int, i: int, x: int, y: int) -> bool {
    frame_of(width, i).contains(PointView { x: clamp_position(x), y: clamp_position(y) })
}

/// The position of the first of `count` thumbnails that is under the point
/// `(x, y)`, if any is.
pub open spec fn hit(width: int, count: int, x: int, y: int) -> Option<int> {
    if exists|i: int| 0 <= i < count && is_under(width, i, x, y) {
        Some(first_under(width, count, x, y))
    } else {
        None
    }
}

/// The position of the first of `count` thumbnails that is under the point
/// `(x, y)`.
pub open spec fn first_under(width: int, count: int, x: int, y: int) -> int {
    choose|i: int|
        0 <= i < count && is_under(width, i, x, y) && forall|j: int|
            0 <= j < i ==> !is_under(width, j, x, y)
}

/// The pixel that a tap at the normalised point `(x, y)` lands on in a
/// viewport of `width` by `height` pixels. A point to the left of or above
/// the viewport lands on its edge.
pub open spec fn tapped_pixel(width: u32, height: u32, x: i32, y: i32) -> (int, int) {
    let px = converted(width, x);
    let py = converted(height, y);
    (
        if px < 0 {
            0
        } else {
            px
        },
        if py < 0 {
            0
        } else {
            py
        },
    )
}

/// What the grid does with the gestures `gs`, starting from `dragging`:
/// whether it is being dragged afterwards, and the change of scene it asks
/// for. A pan drags the grid while it lasts. The first tap that lands on a
/// thumbnail asks for that picture to be shown by itself, and what follows
/// it is not looked at.
pub open spec fn grid_outcome(
    dragging: bool,
    gs: Seq<GestureEvent>,
    width: u32,
    height: u32,
    count: int,
) -> (bool, Option<Action>)
    decreases gs.len(),
{
    if gs.len() == 0 {
        (dragging, None)
    } else {
        let rest = gs.drop_first();
        match gs[0] {
            GestureEvent::Tap(x, y) => {
                let p = tapped_pixel(width, height, x, y);
                match hit(width as int, count, p.0, p.1) {
                    Some(i) => (dragging, Some(Action::ShowPreview(i as usize))),
                    None => grid_outcome(dragging, rest, width, height, count),
                }
            },
            GestureEvent::PanStart { .. } => grid_outcome(true, rest, width, height, count),
            GestureEvent::PanEnd { .. } => grid_outcome(false, rest, width, height, count),
            _ => grid_outcome(dragging, rest, width, height, count),
        }
    }
}

/// The grid is laid out with at least one thumbnail in a row, and no more
/// than fit.
pub proof fn lemma_row_layout(width: int)
    requires
        0 <= width <= u32::MAX,
    ensures
        1 <= per_row(width) <= u32::MAX,
        0 <= thumb_side(width) <= width,
        width >= THUMB_GAP + per_row(width) * (THUMB_W + THUMB_GAP) ==> thumb_side(width)
            >= THUMB_W,
{
    let u = usable_width(width);
    let n = per_row(width);
    assert(0 <= u / 110 <= u) by (nonlinear_arith)
        requires
            0 <= u,
    ;
    assert(0 <= u / n <= u) by (nonlinear_arith)
        requires
            0 <= u,
            n >= 1,
    ;
    if width >= THUMB_GAP + n * (THUMB_W + THUMB_GAP) {
        assert(u / n >= 110) by (nonlinear_arith)
            requires
                u >= n * 110,
                n >= 1,
        ;
    }
}

} // verus!
