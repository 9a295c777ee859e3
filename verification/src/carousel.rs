//! The mathematics of the carousel: three scroll views side by side, the
//! middle one current, under an outer horizontal translation that a pan
//! drags and a transition snaps back or on to the neighbour.
//!
//! The outer translation is in whole pixels; a positive one means that the
//! previous picture is sliding into view.

use vstd::prelude::*;
use crate::fit::contain_of;
use crate::fit::cover_of;
use crate::fit::lemma_rescaled_bounds;
use crate::fixed::abs;
use crate::fixed::clamp;
use crate::fixed::ONE;
use crate::fixed::sat_i32;
use crate::fixed::signum;
use crate::fixed::trunc_div;
use crate::gesture::GestureEvent;
use crate::loader::size_in;
use crate::model::source_at;
use crate::scroll::MIN_SCALE;
use crate::scroll::ScrollState;
use crate::transition::TransitionView;

verus! {

/// The gap between neighbouring pictures, in pixels.
pub const PREVIEW_GAP: i32 = 30;

/// A drag must displace the carousel by more than this many pixels to turn
/// the page.
pub const SNAP_THRESHOLD: i32 = 50;

/// The length of the snap animation in milliseconds.
pub const SNAP_DURATION: u64 = 300;

/// The factor by which a pinch changes the zoom factor.
pub const PINCH_SENSITIVITY: i64 = 5;

/// The state of the carousel.
pub struct CarouselState {
    pub prev: ScrollState,
    pub curr: ScrollState,
    pub next: ScrollState,
    /// The sources of the content of the three views.
    pub prev_src: Seq<char>,
    pub curr_src: Seq<char>,
    pub next_src: Seq<char>,
    /// The size of the viewport in pixels.
    pub width: int,
    pub height: int,
    pub dragging: bool,
    /// The outer translation, and what it was when the drag began.
    pub translate_x: int,
    pub translate_x_pre: int,
    /// The position of the current picture in the gallery.
    pub index: int,
    pub transition: Option<TransitionView>,
    /// The sources of all pictures of the gallery.
    pub urls: Seq<Seq<char>>,
}

/// The three phases of the carousel.
pub enum Phase {
    Idle,
    Dragging,
    Transitioning,
}

impl CarouselState {
    /// The invariant of the carousel: each view meets its own, the outer
    /// translation fits the machine, and the carousel is never dragged
    /// while a transition runs.
    pub open spec fn ok(self) -> bool {
        &&& self.prev.ok()
        &&& self.curr.ok()
        &&& self.next.ok()
        &&& 0 <= self.width <= u32::MAX
        &&& 0 <= self.height <= u32::MAX
        &&& i32::MIN <= self.translate_x <= i32::MAX
        &&& i32::MIN <= self.translate_x_pre <= i32::MAX
        &&& 0 <= self.index <= usize::MAX
        &&& self.urls.len() <= usize::MAX
        &&& !(self.dragging && self.transition is Some)
        &&& self.transition is Some ==> {
            &&& i32::MIN <= self.transition->0.start <= i32::MAX
            &&& i32::MIN <= self.transition->0.target <= i32::MAX
            &&& 0 <= self.transition->0.duration
        }
    }

    /// The phase that the carousel is in; exactly one at a time.
    pub open spec fn phase(self) -> Phase {
        if self.dragging {
            Phase::Dragging
        } else if self.transition is Some {
            Phase::Transitioning
        } else {
            Phase::Idle
        }
    }

    /// The distance between neighbouring pictures: the width of the
    /// viewport and the gap.
    pub open spec fn pitch(self) -> int {
        self.width + PREVIEW_GAP
    }

    /// The state once a pan has begun: the carousel is dragged, a running
    /// transition is dropped, and the outer translation is noted.
    pub open spec fn pan_started(self) -> CarouselState {
        CarouselState {
            dragging: true,
            transition: None,
            translate_x_pre: self.translate_x,
            ..self
        }
    }

    /// The part of the horizontal pan `dxp`, a sub-pixel length, that first
    /// goes into bringing an outer translation of the opposite sign back
    /// toward zero.
    pub open spec fn settling(self, dxp: int) -> int {
        if (self.translate_x > 0 && dxp < 0) || (self.translate_x < 0 && dxp > 0) {
            let room = abs(self.translate_x) * ONE;
            signum(dxp) * (if abs(dxp) < room {
                abs(dxp)
            } else {
                room
            })
        } else {
            0
        }
    }

    /// The state after a pan by the normalised deltas `(dx, dy)`. The
    /// deltas are scaled to the viewport. An outer translation that the pan
    /// opposes takes what brings it back toward zero. What is left goes to
    /// the current view, if that is zoomed in. What the view hands back, or
    /// all that is left, moves the outer translation by its whole pixels.
    pub open spec fn panned(self, dx: i32, dy: i32) -> CarouselState {
        let dxp = dx * self.width;
        let dyp = dy * self.height;
        let moved = self.settling(dxp);
        let tx1 = self.translate_x + trunc_div(moved, ONE as int);
        let dx1 = dxp - moved;
        let curr1 = if self.curr.zoom_mode {
            self.curr.moved_by(dx1 as i64, dyp as i64)
        } else {
            self.curr
        };
        let dx2 = if self.curr.zoom_mode {
            self.curr.remainder(dx1 as i64, dyp as i64).0
        } else {
            dx1
        };
        CarouselState {
            curr: curr1,
            translate_x: sat_i32(tx1 + sat_i32(trunc_div(dx2, ONE as int))),
            ..self
        }
    }

    /// The direction in which the page turns when a drag ends: 1 toward
    /// the previous picture, -1 toward the next, and 0 for staying. The
    /// carousel stays unless it was dragged by more than
    /// [`SNAP_THRESHOLD`], and it stays at either end of the gallery rather
    /// than turn to a picture that is not there.
    pub open spec fn direction(self) -> int {
        let delta = self.translate_x - self.translate_x_pre;
        if delta > SNAP_THRESHOLD && self.index != 0 {
            1
        } else if delta < -SNAP_THRESHOLD && self.index + 1 < self.urls.len() {
            -1
        } else {
            0
        }
    }

    /// Where the outer translation comes to lie when the drag ends.
    pub open spec fn snap_target(self) -> int {
        sat_i32(self.direction() * self.pitch())
    }

    /// The state once a pan has ended at time `now`: the carousel is no
    /// longer dragged, and a transition of [`SNAP_DURATION`] begins from
    /// the outer translation to the snap target.
    pub open spec fn pan_ended(self, now: u64) -> CarouselState {
        CarouselState {
            dragging: false,
            transition: Some(
                TransitionView {
                    start: self.translate_x,
                    target: self.snap_target(),
                    duration: SNAP_DURATION as int,
                    start_time: now,
                },
            ),
            ..self
        }
    }

    /// The state after a double tap: the current view zooms in, or out if
    /// it was zoomed in. While a transition runs nothing happens.
    pub open spec fn double_tapped(self, sizes: Map<Seq<char>, (u32, u32)>) -> CarouselState {
        if self.transition is Some {
            self
        } else if self.curr.zoom_mode {
            CarouselState { curr: self.curr.zoomed_out(size_in(sizes, self.curr_src)), ..self }
        } else {
            CarouselState { curr: self.curr.zoomed_in(size_in(sizes, self.curr_src)), ..self }
        }
    }

    /// The state after a pinch by `d_scale`: the zoom factor of the current
    /// view changes by [`PINCH_SENSITIVITY`] times as much. While a
    /// transition runs nothing happens.
    pub open spec fn pinched(self, d_scale: i32, sizes: Map<Seq<char>, (u32, u32)>)
        -> CarouselState {
        if self.transition is Some {
            self
        } else {
            CarouselState {
                curr: self.curr.with_scale(
                    clamp(
                        self.curr.scale + d_scale * PINCH_SENSITIVITY,
                        MIN_SCALE as int,
                        u32::MAX as int,
                    ),
                    size_in(sizes, self.curr_src),
                ),
                ..self
            }
        }
    }

    /// The state after the gesture `g` at time `now`.
    pub open spec fn handled(self, g: GestureEvent, now: u64, sizes: Map<Seq<char>, (u32, u32)>)
        -> CarouselState {
        match g {
            GestureEvent::Tap(..) => self,
            GestureEvent::DoubleTap(..) => self.double_tapped(sizes),
            GestureEvent::PanStart { .. } => self.pan_started(),
            GestureEvent::Pan { dx, dy, .. } => self.panned(dx, dy),
            GestureEvent::PanEnd { .. } => self.pan_ended(now),
            GestureEvent::PinchUpdate { d_scale, .. } => self.pinched(d_scale, sizes),
        }
    }

    /// The state after the gestures `gs`, one after the other, all at time
    /// `now`.
    pub open spec fn handled_all(
        self,
        gs: Seq<GestureEvent>,
        now: u64,
        sizes: Map<Seq<char>, (u32, u32)>,
    ) -> CarouselState
        decreases gs.len(),
    {
        if gs.len() == 0 {
            self
        } else {
            self.handled_all(gs.drop_last(), now, sizes).handled(gs.last(), now, sizes)
        }
    }

    /// The state when the picture at position `idx` is made current: the
    /// three views get the picture before it, the picture itself and the
    /// picture after it, or no picture where the gallery has none, and
    /// each view is reset.
    pub open spec fn showing(self, idx: int, sizes: Map<Seq<char>, (u32, u32)>) -> CarouselState {
        let p = source_at(self.urls, idx - 1);
        let c = source_at(self.urls, idx);
        let n = source_at(self.urls, idx + 1);
        CarouselState {
            prev: self.prev.cleared(size_in(sizes, p)),
            curr: self.curr.cleared(size_in(sizes, c)),
            next: self.next.cleared(size_in(sizes, n)),
            prev_src: p,
            curr_src: c,
            next_src: n,
            index: idx,
            ..self
        }
    }

    /// The state when the carousel comes on stage with the parameter
    /// `params`: the picture at that position is made current, and without
    /// a parameter nothing changes.
    pub open spec fn started(self, params: Option<usize>, sizes: Map<Seq<char>, (u32, u32)>)
        -> CarouselState {
        match params {
            Some(i) => self.showing(i as int, sizes),
            None => self,
        }
    }

    /// The state after the carousel, having come to lie on a neighbour,
    /// makes that neighbour current: with a positive outer translation the
    /// previous picture, with a negative one the next, if there is one. The
    /// outer translation is shifted by one pitch, so that what is seen does
    /// not move.
    pub open spec fn rotated(self, sizes: Map<Seq<char>, (u32, u32)>) -> CarouselState {
        if self.translate_x > 0 && self.index >= 1 {
            (CarouselState { translate_x: sat_i32(self.translate_x - self.pitch()), ..self }).showing(
                self.index - 1,
                sizes,
            )
        } else if self.translate_x < 0 && self.index + 1 < self.urls.len() {
            (CarouselState { translate_x: sat_i32(self.translate_x + self.pitch()), ..self }).showing(
                self.index + 1,
                sizes,
            )
        } else {
            self
        }
    }

    /// The state after one frame at time `now`. Unless the carousel is
    /// dragged, the momentum of a zoomed current view advances by one tick,
    /// and a running transition moves the outer translation; when the
    /// transition has ended it is dropped and the carousel rotates.
    pub open spec fn updated(self, now: u64, sizes: Map<Seq<char>, (u32, u32)>) -> CarouselState {
        let s1 = if !self.dragging && self.curr.zoom_mode {
            CarouselState { curr: self.curr.ticked(), ..self }
        } else {
            self
        };
        if !self.dragging && self.transition is Some {
            let t = self.transition->0;
            let s2 = CarouselState { translate_x: t.value_at(now), ..s1 };
            if t.ended_at(now) {
                (CarouselState { transition: None, ..s2 }).rotated(sizes)
            } else {
                s2
            }
        } else {
            s1
        }
    }
}

/// Handling a gesture keeps the invariant of the carousel, and never
/// changes the position of the current picture nor the gallery: the
/// position changes only when a transition completes.
pub proof fn lemma_handled_ok(
    st: CarouselState,
    g: GestureEvent,
    now: u64,
    sizes: Map<Seq<char>, (u32, u32)>,
)
    requires
        st.ok(),
    ensures
        st.handled(g, now, sizes).ok(),
        st.handled(g, now, sizes).index == st.index,
        st.handled(g, now, sizes).urls == st.urls,
        st.handled(g, now, sizes).curr_src == st.curr_src,
{
    let size = size_in(sizes, st.curr_src);
    match g {
        GestureEvent::DoubleTap(..) => {
            if st.transition is None {
                if st.curr.zoom_mode {
                    crate::scroll::lemma_with_scale_ok(st.curr, ONE as int, size);
                } else {
                    lemma_cover_scale_bounds(st.curr, size);
                    crate::scroll::lemma_with_scale_ok(st.curr, st.curr.cover_scale(size), size);
                }
            }
        },
        GestureEvent::Pan { dx, dy, .. } => {
            lemma_pan_fits(st, dx, dy);
            let dxp = dx * st.width;
            let dyp = dy * st.height;
            let dx1 = dxp - st.settling(dxp);
            if st.curr.zoom_mode {
                crate::scroll::lemma_moved_by_ok(st.curr, dx1 as i64, dyp as i64);
            }
        },
        GestureEvent::PinchUpdate { d_scale, .. } => {
            if st.transition is None {
                crate::scroll::lemma_with_scale_ok(
                    st.curr,
                    clamp(
                        st.curr.scale + d_scale * PINCH_SENSITIVITY,
                        MIN_SCALE as int,
                        u32::MAX as int,
                    ),
                    size,
                );
            }
        },
        _ => {},
    }
}

/// The zoom factor at which content covers the frame is a `u32`.
pub proof fn lemma_cover_scale_bounds(st: ScrollState, size: Option<(u32, u32)>)
    requires
        st.frame.in_range(),
    ensures
        0 <= st.cover_scale(size) <= u32::MAX,
{
    match size {
        Some((img_w, img_h)) => {
            let w = st.frame.w;
            let h = st.frame.h;
            lemma_rescaled_bounds(h, img_w as int, img_h as int);
            lemma_rescaled_bounds(w, img_h as int, img_w as int);
            let covering = cover_of(img_w as int, img_h as int, w, h);
            let fitted = contain_of(img_w as int, img_h as int, w, h);
            lemma_rescaled_bounds(covering.0, ONE as int, fitted.0);
        },
        None => {},
    }
}

/// The deltas of a pan, scaled to the viewport, fit the machine; what the
/// outer translation takes to settle never carries it past zero.
pub proof fn lemma_pan_fits(st: CarouselState, dx: i32, dy: i32)
    requires
        st.ok(),
    ensures
        i64::MIN < dx * st.width <= i64::MAX,
        i64::MIN < dy * st.height <= i64::MAX,
        i64::MIN < dx * st.width - st.settling(dx * st.width) <= i64::MAX,
        abs(st.settling(dx * st.width)) <= abs(dx * st.width),
        st.translate_x >= 0 ==> 0 <= st.translate_x + trunc_div(
            st.settling(dx * st.width),
            ONE as int,
        ) <= st.translate_x,
        st.translate_x <= 0 ==> st.translate_x <= st.translate_x + trunc_div(
            st.settling(dx * st.width),
            ONE as int,
        ) <= 0,
{
    assert(-0x8000_0000 * 0xffff_ffff <= dx * st.width <= 0x7fff_ffff * 0xffff_ffff)
        by (nonlinear_arith)
        requires
            -0x8000_0000 <= dx <= 0x7fff_ffff,
            0 <= st.width <= 0xffff_ffff,
    ;
    assert(-0x8000_0000 * 0xffff_ffff <= dy * st.height <= 0x7fff_ffff * 0xffff_ffff)
        by (nonlinear_arith)
        requires
            -0x8000_0000 <= dy <= 0x7fff_ffff,
            0 <= st.height <= 0xffff_ffff,
    ;
}

/// Making a picture current keeps the invariant of the carousel.
pub proof fn lemma_showing_ok(st: CarouselState, idx: int, sizes: Map<Seq<char>, (u32, u32)>)
    requires
        st.ok(),
        0 <= idx <= usize::MAX,
    ensures
        st.showing(idx, sizes).ok(),
{
    crate::scroll::lemma_with_scale_ok(
        st.prev,
        ONE as int,
        size_in(sizes, source_at(st.urls, idx - 1)),
    );
    crate::scroll::lemma_with_scale_ok(st.curr, ONE as int, size_in(sizes, source_at(st.urls, idx)));
    crate::scroll::lemma_with_scale_ok(
        st.next,
        ONE as int,
        size_in(sizes, source_at(st.urls, idx + 1)),
    );
}

/// A frame keeps the invariant of the carousel, and the position of the
/// current picture changes only when a transition completes, and then by
/// one at most.
pub proof fn lemma_updated_ok(st: CarouselState, now: u64, sizes: Map<Seq<char>, (u32, u32)>)
    requires
        st.ok(),
    ensures
        st.updated(now, sizes).ok(),
        st.updated(now, sizes).urls == st.urls,
        st.updated(now, sizes).index != st.index ==> st.phase() is Transitioning
            && st.transition->0.ended_at(now) && st.updated(now, sizes).phase() is Idle && abs(
            st.updated(now, sizes).index - st.index,
        ) == 1,
        st.phase() is Idle && (!st.curr.zoom_mode || (st.curr.vx == 0 && st.curr.vy == 0))
            ==> st.updated(now, sizes) == st,
{
    crate::scroll::lemma_ticked_ok(st.curr);
    let s1 = if !st.dragging && st.curr.zoom_mode {
        CarouselState { curr: st.curr.ticked(), ..st }
    } else {
        st
    };
    if !st.dragging && st.transition is Some {
        let t = st.transition->0;
        let tx = t.value_at(now);
        crate::transition::lemma_transition_monotonic(t, now, now);
        if t.ended_at(now) {
            let s3 = CarouselState { transition: None, translate_x: tx, ..s1 };
            if s3.translate_x > 0 && s3.index >= 1 {
                lemma_showing_ok(
                    CarouselState { translate_x: sat_i32(s3.translate_x - s3.pitch()), ..s3 },
                    s3.index - 1,
                    sizes,
                );
            } else if s3.translate_x < 0 && s3.index + 1 < s3.urls.len() {
                lemma_showing_ok(
                    CarouselState { translate_x: sat_i32(s3.translate_x + s3.pitch()), ..s3 },
                    s3.index + 1,
                    sizes,
                );
            }
        }
    }
}

/// Turning the page. A carousel at rest on a picture that has a successor,
/// dragged to the left by more than the snap threshold and let go, shows
/// the successor once the snap animation has run: the position has grown by
/// one, the outer translation is back at zero, and all three views are
/// reset, centred at the zoom factor 1.
pub proof fn lemma_turn_to_next(
    st: CarouselState,
    dx: i32,
    dy: i32,
    now: u64,
    later: u64,
    sizes: Map<Seq<char>, (u32, u32)>,
)
    requires
        st.ok(),
        st.phase() is Idle,
        st.translate_x == 0,
        !st.curr.zoom_mode,
        st.index + 1 < st.urls.len(),
        st.pitch() <= i32::MAX,
        trunc_div(dx * st.width, ONE as int) < -SNAP_THRESHOLD,
        later - now >= SNAP_DURATION,
    ensures
        ({
            let dropped = st.pan_started().panned(dx, dy).pan_ended(now);
            let end = dropped.updated(later, sizes);
            &&& dropped.phase() is Transitioning
            &&& dropped.index == st.index
            &&& dropped.transition->0.target == -st.pitch()
            &&& end.phase() is Idle
            &&& end.index == st.index + 1
            &&& end.translate_x == 0
            &&& end == (CarouselState {
                translate_x: 0,
                ..dropped
            }).showing(st.index + 1, sizes).finished()
            &&& end.prev.offset_x == 0 && end.prev.offset_y == 0 && end.prev.scale == ONE
            &&& end.curr.offset_x == 0 && end.curr.offset_y == 0 && end.curr.scale == ONE
            &&& end.next.offset_x == 0 && end.next.offset_y == 0 && end.next.scale == ONE
        }),
{
    lemma_pan_fits(st, dx, dy);
    let dragged = st.pan_started().panned(dx, dy);
    assert(st.pan_started().settling(dx * st.width) == 0);
    assert(dragged.translate_x == sat_i32(sat_i32(trunc_div(dx * st.width, ONE as int))));
    assert(dragged.translate_x < -SNAP_THRESHOLD);
    let dropped = dragged.pan_ended(now);
    assert(dragged.direction() == -1);
    assert(dropped.transition->0.target == -st.pitch());
}

/// Staying at the end. At the first picture, a drag to the right, however
/// far, snaps back: the transition that begins when the drag ends leads to
/// zero, and once it has run the position is still the first and the outer
/// translation is zero. The same holds of a drag to the left at the last
/// picture.
pub proof fn lemma_stay_at_end(st: CarouselState, now: u64, later: u64, sizes: Map<Seq<char>, (u32, u32)>)
    requires
        st.ok(),
        (st.translate_x > st.translate_x_pre && st.index == 0) || (st.translate_x
            < st.translate_x_pre && st.index + 1 >= st.urls.len()),
        later - now >= SNAP_DURATION,
    ensures
        ({
            let dropped = st.pan_ended(now);
            let end = dropped.updated(later, sizes);
            &&& dropped.direction() == 0
            &&& dropped.transition->0.target == 0
            &&& end.index == st.index
            &&& end.translate_x == 0
            &&& end.phase() is Idle
        }),
{
}

impl CarouselState {
    /// The state with no transition running and no drag going on.
    pub open spec fn finished(self) -> CarouselState {
        CarouselState { transition: None, dragging: false, ..self }
    }
}

} // verus!
