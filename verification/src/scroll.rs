//! The mathematics of a bounded pan and zoom: what each operation on a
//! scroll view does to its state, and the laws that follow.
//!
//! Lengths are sub-pixel lengths and zoom factors are fixed-point numbers
//! (see [`crate::fixed`]); the frame and the natural size of the content
//! are in whole pixels.

use vstd::prelude::*;
use crate::fit::contain_of;
use crate::fit::cover_of;
use crate::fit::rescaled;
use crate::fixed::abs;
use crate::fixed::clamp;
use crate::fixed::ONE;
use crate::fixed::sat_i32;
use crate::fixed::trunc_div;
use crate::mean::mean_of;
use crate::mean::pushed;
use crate::rect::clamp_position;
use crate::rect::clamp_size;
use crate::rect::PointView;
use crate::rect::RectView;

verus! {

/// The smallest zoom factor, 0.1. A zoom factor never reaches zero, which
/// would make the offset limits meaningless.
pub const MIN_SCALE: u32 = 100_000;

/// The zoom factor of a view whose content is not loaded when it zooms in.
pub const DEFAULT_ZOOM: u32 = 2_000_000;

/// The part of its velocity that a view loses on each tick, 0.7.
pub const FRICTION: i64 = 700_000;

/// A velocity below this on both axes counts as rest.
pub const EPSILON: i64 = 10;

/// The number of pan deltas that the velocity of a view is averaged over.
pub const VELOCITY_WINDOW: usize = 3;

/// How far the content may be moved off centre along one axis: half of
/// what the content, fitted into the frame and zoomed by `scale`, extends
/// beyond the frame, and 0 if it does not.
pub open spec fn limit_for(scale: int, fitted: int, frame: int) -> int {
    if scale * fitted > ONE * frame {
        (scale * fitted - ONE * frame) / 2
    } else {
        0
    }
}

/// A velocity after one tick of friction: `v * (1 - FRICTION)`, rounded
/// toward zero.
pub open spec fn decay(v: int) -> int {
    trunc_div(v * (ONE - FRICTION), ONE as int)
}

/// A velocity after `n` ticks of friction.
pub open spec fn decayed(v: int, n: nat) -> int
    decreases n,
{
    if n == 0 {
        v
    } else {
        decay(decayed(v, (n - 1) as nat))
    }
}

/// `b` to the power of `n`.
pub open spec fn pow(b: int, n: nat) -> int
    decreases n,
{
    if n == 0 {
        1
    } else {
        b * pow(b, (n - 1) as nat)
    }
}

/// Whether a view with this velocity is at rest.
pub open spec fn at_rest(vx: int, vy: int) -> bool {
    abs(vx) < EPSILON && abs(vy) < EPSILON
}

/// The velocity of a view after one update: at rest it becomes zero,
/// otherwise friction takes its part.
pub open spec fn tick(v: (int, int)) -> (int, int) {
    if at_rest(v.0, v.1) {
        (0, 0)
    } else {
        (decay(v.0), decay(v.1))
    }
}

/// The velocity of a view after `n` updates without further input.
pub open spec fn ticks(v: (int, int), n: nat) -> (int, int)
    decreases n,
{
    if n == 0 {
        v
    } else {
        tick(ticks(v, (n - 1) as nat))
    }
}

/// The state of a scroll view.
pub struct ScrollState {
    /// The frame that the content is shown in.
    pub frame: RectView,
    /// The zoom factor; 1 shows the content fitted into the frame.
    pub scale: int,
    pub offset_x: int,
    pub offset_y: int,
    pub limit_x: int,
    pub limit_y: int,
    pub zoom_mode: bool,
    /// The velocity of the momentum, per tick.
    pub vx: int,
    pub vy: int,
    /// The last pan deltas, from which the velocity is averaged.
    pub samples_x: Seq<i64>,
    pub samples_y: Seq<i64>,
}

impl ScrollState {
    /// The state of a view that has just been made: a frame of one pixel at
    /// the origin, the content fitted and centred, no limits yet, and no
    /// momentum.
    pub open spec fn fresh() -> ScrollState {
        ScrollState {
            frame: RectView { x: 0, y: 0, w: 1, h: 1 },
            scale: ONE as int,
            offset_x: 0,
            offset_y: 0,
            limit_x: 0,
            limit_y: 0,
            zoom_mode: false,
            vx: 0,
            vy: 0,
            samples_x: Seq::empty(),
            samples_y: Seq::empty(),
        }
    }

    /// Where the content is drawn when the view is shown in `frame`: a
    /// rectangle of the frame's size times the zoom factor, centred on the
    /// frame's centre shifted by the whole pixels of the offset.
    pub open spec fn placed(self, frame: RectView) -> RectView {
        let c = frame.center();
        let center = PointView {
            x: clamp_position(
                clamp_position(c.x) + sat_i32(trunc_div(self.offset_x, ONE as int)),
            ),
            y: clamp_position(
                clamp_position(c.y) + sat_i32(trunc_div(self.offset_y, ONE as int)),
            ),
        };
        (RectView {
            x: 0,
            y: 0,
            w: clamp_size(rescaled(frame.w, self.scale, ONE as int)),
            h: clamp_size(rescaled(frame.h, self.scale, ONE as int)),
        }).centered_on(center)
    }

    /// The invariant of a scroll view: the zoom factor is at least
    /// [`MIN_SCALE`], and the offset is within its limit on either axis.
    pub open spec fn ok(self) -> bool {
        &&& self.frame.in_range()
        &&& MIN_SCALE <= self.scale <= u32::MAX
        &&& 0 <= self.limit_x <= i64::MAX
        &&& 0 <= self.limit_y <= i64::MAX
        &&& abs(self.offset_x) <= self.limit_x
        &&& abs(self.offset_y) <= self.limit_y
        &&& i64::MIN <= self.vx <= i64::MAX
        &&& i64::MIN <= self.vy <= i64::MAX
        &&& self.samples_x.len() <= VELOCITY_WINDOW
        &&& self.samples_y.len() <= VELOCITY_WINDOW
    }

    /// The state after the offset has been set to `(x, y)`, limited to the
    /// offset limits.
    pub open spec fn positioned(self, x: int, y: int) -> ScrollState {
        ScrollState {
            offset_x: clamp(x, -self.limit_x, self.limit_x),
            offset_y: clamp(y, -self.limit_y, self.limit_y),
            ..self
        }
    }

    /// The state after the zoom factor has been set to `scale` while the
    /// content has the natural size `size`, if it is loaded: the zoom
    /// factor is at least [`MIN_SCALE`], the limits follow from the content
    /// fitted into the frame (they stay while the content is not loaded),
    /// and the offset is limited anew.
    pub open spec fn with_scale(self, scale: int, size: Option<(u32, u32)>) -> ScrollState {
        let s = if scale < MIN_SCALE {
            MIN_SCALE as int
        } else {
            scale
        };
        let (lx, ly) = match size {
            Some((img_w, img_h)) => {
                let fitted = contain_of(img_w as int, img_h as int, self.frame.w, self.frame.h);
                (limit_for(s, fitted.0, self.frame.w), limit_for(s, fitted.1, self.frame.h))
            },
            None => (self.limit_x, self.limit_y),
        };
        ScrollState {
            scale: s,
            limit_x: lx,
            limit_y: ly,
            zoom_mode: s > ONE,
            offset_x: clamp(self.offset_x, -lx, lx),
            offset_y: clamp(self.offset_y, -ly, ly),
            ..self
        }
    }

    /// The zoom factor at which the content just covers the frame: the
    /// ratio of its covering width to its fitted width, and
    /// [`DEFAULT_ZOOM`] while the content is not loaded.
    pub open spec fn cover_scale(self, size: Option<(u32, u32)>) -> int {
        match size {
            Some((img_w, img_h)) => {
                let covering = cover_of(img_w as int, img_h as int, self.frame.w, self.frame.h);
                let fitted = contain_of(img_w as int, img_h as int, self.frame.w, self.frame.h);
                rescaled(covering.0, ONE as int, fitted.0)
            },
            None => DEFAULT_ZOOM as int,
        }
    }

    /// The state after zooming in: the content covers the frame, the
    /// momentum is gone, and the view is in zoom mode.
    pub open spec fn zoomed_in(self, size: Option<(u32, u32)>) -> ScrollState {
        ScrollState {
            vx: 0,
            vy: 0,
            zoom_mode: true,
            ..self.with_scale(self.cover_scale(size), size)
        }
    }

    /// The state after zooming out: the content is fitted into the frame
    /// and centred, and the view is not in zoom mode.
    pub open spec fn zoomed_out(self, size: Option<(u32, u32)>) -> ScrollState {
        ScrollState {
            offset_x: 0,
            offset_y: 0,
            zoom_mode: false,
            ..self.with_scale(ONE as int, size)
        }
    }

    /// The state after a reset: the content is fitted into the frame and
    /// centred.
    pub open spec fn cleared(self, size: Option<(u32, u32)>) -> ScrollState {
        ScrollState { offset_x: 0, offset_y: 0, ..self.with_scale(ONE as int, size) }
    }

    /// The state after a pan by `(dx, dy)`: the offset moves as far as its
    /// limits allow; the deltas join the velocity window; and the velocity
    /// on each axis is the mean of the window, or zero where the offset is
    /// pinned at its limit.
    pub open spec fn moved_by(self, dx: i64, dy: i64) -> ScrollState {
        let at = self.positioned(self.offset_x + dx, self.offset_y + dy);
        let sx = pushed(self.samples_x, VELOCITY_WINDOW as nat, dx);
        let sy = pushed(self.samples_y, VELOCITY_WINDOW as nat, dy);
        ScrollState {
            samples_x: sx,
            samples_y: sy,
            vx: if abs(at.offset_x) == self.limit_x {
                0
            } else {
                mean_of(sx)
            },
            vy: if abs(at.offset_y) == self.limit_y {
                0
            } else {
                mean_of(sy)
            },
            ..at
        }
    }

    /// The part of a pan by `(dx, dy)` that the limits keep the offset from
    /// taking, per axis.
    pub open spec fn remainder(self, dx: i64, dy: i64) -> (int, int) {
        let at = self.positioned(self.offset_x + dx, self.offset_y + dy);
        (self.offset_x + dx - at.offset_x, self.offset_y + dy - at.offset_y)
    }

    /// The state after one update without input: at rest the velocity
    /// becomes zero and nothing else happens; otherwise the velocity is
    /// applied to the offset within its limits, and then decays.
    pub open spec fn ticked(self) -> ScrollState {
        if at_rest(self.vx, self.vy) {
            ScrollState { vx: 0, vy: 0, ..self }
        } else {
            ScrollState {
                vx: decay(self.vx),
                vy: decay(self.vy),
                ..self.positioned(self.offset_x + self.vx, self.offset_y + self.vy)
            }
        }
    }

    /// The state after the pans `deltas`, one after the other.
    pub open spec fn moved_along(self, deltas: Seq<(i64, i64)>) -> ScrollState
        decreases deltas.len(),
    {
        if deltas.len() == 0 {
            self
        } else {
            self.moved_along(deltas.drop_last()).moved_by(deltas.last().0, deltas.last().1)
        }
    }

    /// The state after `n` updates without input.
    pub open spec fn ticked_times(self, n: nat) -> ScrollState
        decreases n,
    {
        if n == 0 {
            self
        } else {
            self.ticked_times((n - 1) as nat).ticked()
        }
    }
}

/// An offset limit is never negative, and fits the machine for every zoom
/// factor and every frame.
pub proof fn lemma_limit_bounds(scale: int, fitted: int, frame: int)
    requires
        0 <= scale <= u32::MAX,
        0 <= fitted <= u32::MAX,
        0 <= frame,
    ensures
        0 <= limit_for(scale, fitted, frame) <= i64::MAX,
        0 <= scale * fitted <= 0xffff_ffff * 0xffff_ffff,
{
    assert(0 <= scale * fitted <= 0xffff_ffff * 0xffff_ffff) by (nonlinear_arith)
        requires
            0 <= scale <= 0xffff_ffff,
            0 <= fitted <= 0xffff_ffff,
    ;
    assert(ONE * frame >= 0) by (nonlinear_arith)
        requires
            frame >= 0,
    ;
}

/// Friction never lengthens a velocity nor turns it round, and a velocity
/// that fits the machine still fits after decaying.
pub proof fn lemma_decay_shrinks(v: int)
    ensures
        abs(decay(v)) <= abs(v),
        v >= 0 ==> decay(v) >= 0,
        v <= 0 ==> decay(v) <= 0,
        abs(decay(v)) * ONE <= abs(v) * (ONE - FRICTION),
        abs(v) * (ONE - FRICTION) < (abs(decay(v)) + 1) * ONE,
{
    let a = abs(v);
    let r = ONE - FRICTION;
    assert(abs(v * r) == a * r) by (nonlinear_arith)
        requires
            a == abs(v),
            r == 300_000,
    ;
    assert(v >= 0 ==> v * r >= 0) by (nonlinear_arith)
        requires
            r == 300_000,
    ;
    assert(v < 0 ==> v * r < 0) by (nonlinear_arith)
        requires
            r == 300_000,
    ;
    let q = (a * r) / (ONE as int);
    assert(q * ONE <= a * r < (q + 1) * ONE && 0 <= q) by (nonlinear_arith)
        requires
            q == (a * r) / (ONE as int),
            ONE == 1_000_000,
            a * r >= 0,
    ;
    assert(q <= a) by (nonlinear_arith)
        requires
            q * 1_000_000 <= a * 300_000,
            a >= 0,
    ;
}

/// After `n` ticks of friction the velocity `v` has become
/// `v * (1 - FRICTION)^n`, short of it by less than two units for all the
/// rounding toward zero on the way, and never beyond it.
pub proof fn lemma_decayed_bounds(v: int, n: nat)
    ensures
        v >= 0 ==> decayed(v, n) >= 0,
        v <= 0 ==> decayed(v, n) <= 0,
        abs(decayed(v, n)) * pow(ONE as int, n) <= abs(v) * pow(ONE - FRICTION, n),
        abs(v) * pow(ONE - FRICTION, n) < (abs(decayed(v, n)) + 2) * pow(ONE as int, n),
        pow(ONE as int, n) > 0,
        pow(ONE - FRICTION, n) > 0,
    decreases n,
{
    if n > 0 {
        let m = (n - 1) as nat;
        lemma_decayed_bounds(v, m);
        let d0 = decayed(v, m);
        let d1 = decayed(v, n);
        lemma_decay_shrinks(d0);
        let a0 = abs(d0);
        let a1 = abs(d1);
        let a = abs(v);
        let pm1 = pow(ONE as int, m);
        let pmr = pow(ONE - FRICTION, m);
        assert(a1 * (1_000_000 * pm1) <= a * (300_000 * pmr)) by (nonlinear_arith)
            requires
                a1 * 1_000_000 <= a0 * 300_000,
                a0 * pm1 <= a * pmr,
                pm1 > 0,
                pmr > 0,
                a1 >= 0,
                a0 >= 0,
                a >= 0,
        ;
        assert(a * (300_000 * pmr) < (a1 + 2) * (1_000_000 * pm1)) by (nonlinear_arith)
            requires
                a0 * 300_000 < (a1 + 1) * 1_000_000,
                a * pmr < (a0 + 2) * pm1,
                pm1 > 0,
                pmr > 0,
                a1 >= 0,
                a0 >= 0,
                a >= 0,
        ;
        assert(1_000_000 * pm1 > 0) by (nonlinear_arith)
            requires
                pm1 > 0,
        ;
        assert(300_000 * pmr > 0) by (nonlinear_arith)
            requires
                pmr > 0,
        ;
    }
}

/// Momentum decays by friction alone: as long as the view has not come to
/// rest, `n` updates without input leave the velocity that `n` ticks of
/// friction leave.
pub proof fn lemma_momentum(vx: int, vy: int, n: nat)
    requires
        forall|k: nat| k < n ==> !at_rest(#[trigger] decayed(vx, k), decayed(vy, k)),
    ensures
        ticks((vx, vy), n) == (decayed(vx, n), decayed(vy, n)),
    decreases n,
{
    if n > 0 {
        let m = (n - 1) as nat;
        assert forall|k: nat| k < m implies !at_rest(#[trigger] decayed(vx, k), decayed(vy, k)) by {}
        lemma_momentum(vx, vy, m);
    }
}

/// Once the view has come to rest, every further update leaves the velocity
/// at zero.
pub proof fn lemma_rest_is_final(vx: int, vy: int, k: nat, n: nat)
    requires
        at_rest(ticks((vx, vy), k).0, ticks((vx, vy), k).1),
        k < n,
    ensures
        ticks((vx, vy), n) == (0int, 0int),
    decreases n,
{
    let m = (n - 1) as nat;
    if m > k {
        lemma_rest_is_final(vx, vy, k, m);
        assert(decay(0) == 0) by {
            lemma_decay_shrinks(0);
        }
    }
}

/// Setting the zoom factor keeps the invariant.
pub proof fn lemma_with_scale_ok(st: ScrollState, scale: int, size: Option<(u32, u32)>)
    requires
        st.ok(),
        scale <= u32::MAX,
    ensures
        st.with_scale(scale, size).ok(),
{
    let s = if scale < MIN_SCALE {
        MIN_SCALE as int
    } else {
        scale
    };
    match size {
        Some((img_w, img_h)) => {
            crate::fit::lemma_contain_fits(img_w as int, img_h as int, st.frame.w, st.frame.h);
            let fitted = contain_of(img_w as int, img_h as int, st.frame.w, st.frame.h);
            lemma_limit_bounds(s, fitted.0, st.frame.w);
            lemma_limit_bounds(s, fitted.1, st.frame.h);
        },
        None => {},
    }
}

/// Setting the zoom factor is idempotent: a second call with the same
/// factor, while the content has the same natural size, changes nothing;
/// in particular the limits and the zoom mode are those of the first call.
pub proof fn lemma_with_scale_idempotent(st: ScrollState, scale: int, size: Option<(u32, u32)>)
    requires
        st.ok(),
        scale <= u32::MAX,
    ensures
        st.with_scale(scale, size).with_scale(scale, size) == st.with_scale(scale, size),
{
    lemma_with_scale_ok(st, scale, size);
}

/// A pan keeps the invariant: whatever the deltas, the offset stays within
/// its limits on both axes.
pub proof fn lemma_moved_by_ok(st: ScrollState, dx: i64, dy: i64)
    requires
        st.ok(),
    ensures
        st.moved_by(dx, dy).ok(),
        abs(st.moved_by(dx, dy).offset_x) <= st.moved_by(dx, dy).limit_x,
        abs(st.moved_by(dx, dy).offset_y) <= st.moved_by(dx, dy).limit_y,
        st.moved_by(dx, dy).limit_x == st.limit_x,
        st.moved_by(dx, dy).limit_y == st.limit_y,
{
    crate::mean::lemma_mean_bounds(pushed(st.samples_x, VELOCITY_WINDOW as nat, dx));
    crate::mean::lemma_mean_bounds(pushed(st.samples_y, VELOCITY_WINDOW as nat, dy));
}

/// However many pans follow one another, the offset never exceeds its
/// limit in absolute value on either axis.
pub proof fn lemma_moved_along_ok(st: ScrollState, deltas: Seq<(i64, i64)>)
    requires
        st.ok(),
    ensures
        st.moved_along(deltas).ok(),
        abs(st.moved_along(deltas).offset_x) <= st.limit_x,
        abs(st.moved_along(deltas).offset_y) <= st.limit_y,
        st.moved_along(deltas).limit_x == st.limit_x,
        st.moved_along(deltas).limit_y == st.limit_y,
    decreases deltas.len(),
{
    if deltas.len() > 0 {
        lemma_moved_along_ok(st, deltas.drop_last());
        lemma_moved_by_ok(st.moved_along(deltas.drop_last()), deltas.last().0, deltas.last().1);
    }
}

/// What a pan does not apply to the offset it hands back: on each axis the
/// applied part and the remainder add up to the delta, and the remainder
/// never exceeds the delta nor points the other way.
pub proof fn lemma_remainder(st: ScrollState, dx: i64, dy: i64)
    requires
        st.ok(),
    ensures
        (st.moved_by(dx, dy).offset_x - st.offset_x) + st.remainder(dx, dy).0 == dx,
        (st.moved_by(dx, dy).offset_y - st.offset_y) + st.remainder(dx, dy).1 == dy,
        dx >= 0 ==> 0 <= st.remainder(dx, dy).0 <= dx,
        dx <= 0 ==> dx <= st.remainder(dx, dy).0 <= 0,
        dy >= 0 ==> 0 <= st.remainder(dx, dy).1 <= dy,
        dy <= 0 ==> dy <= st.remainder(dx, dy).1 <= 0,
{
}

/// An update keeps the invariant.
pub proof fn lemma_ticked_ok(st: ScrollState)
    requires
        st.ok(),
    ensures
        st.ticked().ok(),
{
    lemma_decay_shrinks(st.vx);
    lemma_decay_shrinks(st.vy);
}

/// The velocity of a view after `n` updates without input is that of
/// [`ticks`]: it depends on nothing but the velocity before.
pub proof fn lemma_ticked_times_velocity(st: ScrollState, n: nat)
    ensures
        (st.ticked_times(n).vx, st.ticked_times(n).vy) == ticks((st.vx, st.vy), n),
    decreases n,
{
    if n > 0 {
        lemma_ticked_times_velocity(st, (n - 1) as nat);
    }
}

/// An update of a view that has no velocity changes nothing.
pub proof fn lemma_ticked_idle(st: ScrollState)
    requires
        st.vx == 0,
        st.vy == 0,
    ensures
        st.ticked() == st,
{
}

} // verus!
