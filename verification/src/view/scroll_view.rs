//! A scroll view: one image in a frame, panned and zoomed within bounds,
//! with momentum after a pan. What each operation does to the state is
//! defined in [`crate::scroll`].

use vstd::prelude::*;
use crate::display::Image;
use crate::fit::rescale;
use crate::fixed::clamp;
use crate::fixed::ONE;
use crate::fixed::saturate_i32;
use crate::fixed::whole_pixels;
use crate::loader::LoadRegister;
use crate::loader::LoadRequest;
use crate::loader::size_in;
use crate::mean::Mean;
use crate::rect::Rect;
use crate::scroll::decay;
use crate::scroll::DEFAULT_ZOOM;
use crate::scroll::EPSILON;
use crate::scroll::FRICTION;
use crate::scroll::lemma_decay_shrinks;
use crate::scroll::lemma_limit_bounds;
use crate::scroll::limit_for;
use crate::scroll::MIN_SCALE;
use crate::scroll::ScrollState;
use crate::scroll::VELOCITY_WINDOW;

verus! {

/// The offset limit along one axis; see [`limit_for`].
fn offset_limit(scale: u32, fitted: u32, frame: u32) -> (r: i64)
    ensures
        r == limit_for(scale as int, fitted as int, frame as int),
        0 <= r,
{
    proof {
        lemma_limit_bounds(scale as int, fitted as int, frame as int);
        assert(0 <= ONE * frame <= 1_000_000 * 0xffff_ffff) by (nonlinear_arith)
            requires
                0 <= frame <= 0xffff_ffff,
                ONE == 1_000_000,
        ;
    }
    let a: i128 = (scale as i128) * (fitted as i128);
    let b: i128 = (ONE as i128) * (frame as i128);
    if a > b {
        ((a - b) / 2) as i64
    } else {
        0
    }
}

/// `v` limited to `[-limit, limit]`.
fn within(v: i128, limit: i64) -> (r: i64)
    requires
        0 <= limit,
    ensures
        r == clamp(v as int, -limit, limit as int),
{
    if v > limit as i128 {
        limit
    } else if v < -(limit as i128) {
        -limit
    } else {
        v as i64
    }
}

/// The velocity `dx` after one tick of friction: what [`FRICTION`] leaves
/// of it, rounded toward zero.
pub fn apply_friction(dx: i64) -> (r: i64)
    ensures
        r == decay(dx as int),
{
    proof {
        lemma_decay_shrinks(dx as int);
        assert(-0x8000_0000_0000_0000 * 300_000 <= dx * (ONE - FRICTION) <= 0x8000_0000_0000_0000
            * 300_000) by (nonlinear_arith)
            requires
                -0x8000_0000_0000_0000 <= dx <= 0x8000_0000_0000_0000,
                ONE - FRICTION == 300_000,
        ;
    }
    let left: i128 = (dx as i128) * ((ONE - FRICTION) as i128);
    (left / (ONE as i128)) as i64
}

/// One image in a frame, panned and zoomed within bounds, with momentum.
pub struct ScrollView {
    content: Image,
    rect: Rect,
    scale: u32,
    offset_x: i64,
    offset_y: i64,
    offset_x_limit: i64,
    offset_y_limit: i64,
    zoom_mode: bool,
    dx: i64,
    dy: i64,
    mean_x: Mean,
    mean_y: Mean,
}

impl View for ScrollView {
    type V = ScrollState;

    closed spec fn view(&self) -> ScrollState {
        ScrollState {
            frame: self.rect@,
            scale: self.scale as int,
            offset_x: self.offset_x as int,
            offset_y: self.offset_y as int,
            limit_x: self.offset_x_limit as int,
            limit_y: self.offset_y_limit as int,
            zoom_mode: self.zoom_mode,
            vx: self.dx as int,
            vy: self.dy as int,
            samples_x: self.mean_x@,
            samples_y: self.mean_y@,
        }
    }
}

impl ScrollView {
    /// The view is consistent: its state meets [`ScrollState::ok`], and
    /// both velocity windows hold at most [`VELOCITY_WINDOW`] deltas.
    pub closed spec fn wf(&self) -> bool {
        &&& self@.ok()
        &&& self.mean_x.wf()
        &&& self.mean_y.wf()
        &&& self.mean_x.capacity() == VELOCITY_WINDOW
        &&& self.mean_y.capacity() == VELOCITY_WINDOW
    }

    /// A consistent view meets the invariant of its state: the offset is
    /// within its limits.
    pub proof fn lemma_wf(&self)
        requires
            self.wf(),
        ensures
            self@.ok(),
    {
    }

    /// The image that the view shows.
    pub closed spec fn content(&self) -> Image {
        self.content
    }

    /// The natural size of the content, if `reg` holds it.
    pub open spec fn natural_size(&self, reg: &LoadRegister) -> Option<(u32, u32)> {
        size_in(reg.sizes(), self.content().src())
    }

    /// A view of `content` in the state [`ScrollState::fresh`].
    pub fn new(content: Image) -> (v: ScrollView)
        ensures
            v.wf(),
            v@ == ScrollState::fresh(),
            v.content() == content,
    {
        let mean_x = Mean::new(VELOCITY_WINDOW);
        let mean_y = Mean::new(VELOCITY_WINDOW);
        ScrollView {
            content,
            rect: Rect::new(0, 0, 0, 0),
            scale: ONE as u32,
            offset_x: 0,
            offset_y: 0,
            offset_x_limit: 0,
            offset_y_limit: 0,
            zoom_mode: false,
            dx: 0,
            dy: 0,
            mean_x,
            mean_y,
        }
    }

    /// The image that the view shows.
    pub fn get_content(&self) -> (img: &Image)
        ensures
            *img == self.content(),
    {
        &self.content
    }

    /// The zoom factor.
    pub fn scale(&self) -> (s: u32)
        ensures
            s == self@.scale,
    {
        self.scale
    }

    /// The offset of the content from the centre of the frame.
    pub fn offset(&self) -> (o: (i64, i64))
        ensures
            o.0 == self@.offset_x,
            o.1 == self@.offset_y,
    {
        (self.offset_x, self.offset_y)
    }

    /// The largest offset in absolute value, per axis.
    pub fn offset_limit(&self) -> (l: (i64, i64))
        ensures
            l.0 == self@.limit_x,
            l.1 == self@.limit_y,
    {
        (self.offset_x_limit, self.offset_y_limit)
    }

    /// The velocity of the momentum, per tick.
    pub fn velocity(&self) -> (v: (i64, i64))
        ensures
            v.0 == self@.vx,
            v.1 == self@.vy,
    {
        (self.dx, self.dy)
    }

    /// Whether the view is zoomed in.
    pub fn zoom_mode(&self) -> (z: bool)
        ensures
            z == self@.zoom_mode,
    {
        self.zoom_mode
    }

    /// The frame of the view.
    pub fn rect(&self) -> (r: Rect)
        ensures
            r@ == self@.frame,
    {
        self.rect
    }

    /// Shows the content fitted into the frame and centred.
    pub fn reset(&mut self, reg: &LoadRegister)
        requires
            old(self).wf(),
        ensures
            final(self).wf(),
            final(self)@ == old(self)@.cleared(old(self).natural_size(reg)),
            final(self).content() == old(self).content(),
    {
        self.set_scale(ONE as u32, reg);
        self.offset_x = 0;
        self.offset_y = 0;
    }

    /// Zooms in until the content covers the frame, and drops any
    /// momentum.
    pub fn enter_zoom(&mut self, reg: &LoadRegister)
        requires
            old(self).wf(),
        ensures
            final(self).wf(),
            final(self)@ == old(self)@.zoomed_in(old(self).natural_size(reg)),
            final(self).content() == old(self).content(),
    {
        self.cover(reg);
        self.zoom_mode = true;
    }

    /// Zooms out until the content fits into the frame, and centres it.
    pub fn exit_zoom(&mut self, reg: &LoadRegister)
        requires
            old(self).wf(),
        ensures
            final(self).wf(),
            final(self)@ == old(self)@.zoomed_out(old(self).natural_size(reg)),
            final(self).content() == old(self).content(),
    {
        self.contain(reg);
        self.offset_x = 0;
        self.offset_y = 0;
        self.zoom_mode = false;
    }

    /// Changes the zoom factor by `d`, a pinch about the point `(x, y)`.
    /// The new factor is limited to the range from [`MIN_SCALE`] to the
    /// largest `u32`.
    pub fn scale_by(&mut self, x: i64, y: i64, d: i64, reg: &LoadRegister)
        requires
            old(self).wf(),
        ensures
            final(self).wf(),
            final(self)@ == old(self)@.with_scale(
                clamp(old(self)@.scale + d, MIN_SCALE as int, u32::MAX as int),
                old(self).natural_size(reg),
            ),
            final(self).content() == old(self).content(),
    {
        let wide: i128 = self.scale as i128 + d as i128;
        let s: u32 = if wide < MIN_SCALE as i128 {
            MIN_SCALE
        } else if wide > u32::MAX as i128 {
            u32::MAX
        } else {
            wide as u32
        };
        self.set_scale(s, reg);
    }

    /// One tick of momentum. At rest, below [`EPSILON`] on both axes, the
    /// velocity becomes zero and nothing else changes; otherwise the
    /// velocity is applied to the offset, within its limits, and then loses
    /// the part [`FRICTION`].
    pub fn update(&mut self)
        requires
            old(self).wf(),
        ensures
            final(self).wf(),
            final(self)@ == old(self)@.ticked(),
            final(self).content() == old(self).content(),
    {
        if -EPSILON < self.dx && self.dx < EPSILON && -EPSILON < self.dy && self.dy < EPSILON {
            self.dx = 0;
            self.dy = 0;
            return ;
        }
        proof {
            lemma_decay_shrinks(self.dx as int);
            lemma_decay_shrinks(self.dy as int);
        }
        self.offset_x = within(self.offset_x as i128 + self.dx as i128, self.offset_x_limit);
        self.offset_y = within(self.offset_y as i128 + self.dy as i128, self.offset_y_limit);
        self.dx = apply_friction(self.dx);
        self.dy = apply_friction(self.dy);
    }

    /// Sets the frame of the view; coordinates and sizes are limited as in
    /// [`Rect::new`].
    pub fn set_rect(&mut self, x: i32, y: i32, w: u32, h: u32)
        requires
            old(self).wf(),
        ensures
            final(self).wf(),
            final(self)@ == (ScrollState { frame: Rect::new_view(x, y, w, h), ..old(self)@ }),
            final(self).content() == old(self).content(),
    {
        self.rect.set_x(x);
        self.rect.set_y(y);
        self.rect.set_width(w);
        self.rect.set_height(h);
    }

    /// Sets the zoom factor to `scale`, or to [`MIN_SCALE`] if `scale` is
    /// smaller. The offset limits are computed anew from the natural size
    /// of the content, if it is loaded; zoom mode is on exactly if the
    /// factor is above 1; and the offset is limited to the new limits.
    pub fn set_scale(&mut self, scale: u32, reg: &LoadRegister)
        requires
            old(self).wf(),
        ensures
            final(self).wf(),
            final(self)@ == old(self)@.with_scale(scale as int, old(self).natural_size(reg)),
            final(self).content() == old(self).content(),
    {
        let s = if scale < MIN_SCALE {
            MIN_SCALE
        } else {
            scale
        };
        let w = self.rect.width();
        let h = self.rect.height();
        match self.content.get_img_size(reg) {
            Some((img_w, img_h)) => {
                let (w2, h2) = Image::contain_size(img_w, img_h, w, h);
                self.offset_x_limit = offset_limit(s, w2, w);
                self.offset_y_limit = offset_limit(s, h2, h);
            },
            None => {},
        }
        self.scale = s;
        self.zoom_mode = s > ONE as u32;
        self.offset_x = within(self.offset_x as i128, self.offset_x_limit);
        self.offset_y = within(self.offset_y as i128, self.offset_y_limit);
    }

    /// Shows the content fitted into the frame: the zoom factor 1.
    pub fn contain(&mut self, reg: &LoadRegister)
        requires
            old(self).wf(),
        ensures
            final(self).wf(),
            final(self)@ == old(self)@.with_scale(ONE as int, old(self).natural_size(reg)),
            final(self).content() == old(self).content(),
    {
        self.set_scale(ONE as u32, reg);
    }

    /// Shows the content covering the frame, at the zoom factor
    /// [`ScrollState::cover_scale`], and drops any momentum.
    pub fn cover(&mut self, reg: &LoadRegister)
        requires
            old(self).wf(),
        ensures
            final(self).wf(),
            final(self)@ == (ScrollState {
                vx: 0,
                vy: 0,
                ..old(self)@.with_scale(
                    old(self)@.cover_scale(old(self).natural_size(reg)),
                    old(self).natural_size(reg),
                )
            }),
            final(self).content() == old(self).content(),
    {
        let w = self.rect.width();
        let h = self.rect.height();
        let r = match self.content.get_img_size(reg) {
            Some((img_w, img_h)) => {
                let (w1, _) = Image::cover_size(img_w, img_h, w, h);
                let (w2, _) = Image::contain_size(img_w, img_h, w, h);
                rescale(w1, ONE as u32, w2)
            },
            None => DEFAULT_ZOOM,
        };
        self.set_scale(r, reg);
        self.dx = 0;
        self.dy = 0;
    }

    /// Sets the offset to `(x, y)`, each component limited to its limit.
    pub fn set_pos(&mut self, x: i64, y: i64)
        requires
            old(self).wf(),
        ensures
            final(self).wf(),
            final(self)@ == old(self)@.positioned(x as int, y as int),
            final(self).content() == old(self).content(),
    {
        self.offset_x = within(x as i128, self.offset_x_limit);
        self.offset_y = within(y as i128, self.offset_y_limit);
    }

    /// Pans by `(dx, dy)` as far as the limits allow, and returns what they
    /// did not allow, per axis, so that the caller can hand it on: applied
    /// part and remainder add up to the delta. The deltas join the velocity
    /// window, and the velocity on each axis becomes the mean of the
    /// window, or zero where the offset is pinned at its limit.
    pub fn move_by(&mut self, dx: i64, dy: i64) -> (rest: (i64, i64))
        requires
            old(self).wf(),
        ensures
            final(self).wf(),
            final(self)@ == old(self)@.moved_by(dx, dy),
            (rest.0 as int, rest.1 as int) == old(self)@.remainder(dx, dy),
            (final(self)@.offset_x - old(self)@.offset_x) + rest.0 == dx,
            (final(self)@.offset_y - old(self)@.offset_y) + rest.1 == dy,
            -final(self)@.limit_x <= final(self)@.offset_x <= final(self)@.limit_x,
            -final(self)@.limit_y <= final(self)@.offset_y <= final(self)@.limit_y,
            final(self)@.limit_x == old(self)@.limit_x,
            final(self)@.limit_y == old(self)@.limit_y,
            final(self).content() == old(self).content(),
    {
        let px: i128 = self.offset_x as i128 + dx as i128;
        let py: i128 = self.offset_y as i128 + dy as i128;
        let ax = within(px, self.offset_x_limit);
        let ay = within(py, self.offset_y_limit);
        self.offset_x = ax;
        self.offset_y = ay;
        self.mean_x.push(dx);
        self.mean_y.push(dy);
        if ax == self.offset_x_limit || ax == -self.offset_x_limit {
            self.dx = 0;
        } else {
            self.dx = self.mean_x.get();
        }
        if ay == self.offset_y_limit || ay == -self.offset_y_limit {
            self.dy = 0;
        } else {
            self.dy = self.mean_y.get();
        }
        proof {
            self.mean_x.lemma_len();
            self.mean_y.lemma_len();
        }
        ((px - ax as i128) as i64, (py - ay as i128) as i64)
    }

    /// Points the content at another source, as [`Image::set_src`] does,
    /// and returns the load requests that are due. The state of the view
    /// stays as it is.
    pub fn set_src(&mut self, src: &str, reg: &mut LoadRegister) -> (reqs: Vec<LoadRequest>)
        requires
            old(self).wf(),
        ensures
            final(self).wf(),
            final(self)@ == old(self)@,
            final(self).content().src() == src@,
            final(self).content().is_local() == old(self).content().is_local(),
            final(self).content().fill() == old(self).content().fill(),
            final(reg).sizes() == old(reg).sizes(),
            !old(self).content().is_local() ==> reqs@.len() == 0 && final(reg).loading() == old(
                reg,
            ).loading() && final(reg).default_requested() == old(reg).default_requested(),
    {
        self.content.set_src(src, reg)
    }

    /// Points content that is not local at another source.
    pub(crate) fn set_remote_src(&mut self, src: &str)
        requires
            old(self).wf(),
        ensures
            final(self).wf(),
            final(self)@ == old(self)@,
            final(self).content().src() == src@,
            final(self).content().is_local() == old(self).content().is_local(),
            final(self).content().fill() == old(self).content().fill(),
    {
        self.content.assign_src(src);
    }

    /// Where the content is drawn when the view is shown in `rect`; see
    /// [`ScrollState::placed`].
    pub fn content_rect(&self, rect: Rect) -> (r: Rect)
        ensures
            r@ == self@.placed(rect@),
    {
        let ox = saturate_i32(whole_pixels(self.offset_x));
        let oy = saturate_i32(whole_pixels(self.offset_y));
        let w = rescale(rect.width(), self.scale, ONE as u32);
        let h = rescale(rect.height(), self.scale, ONE as u32);
        Rect::from_center(rect.center().offset(ox, oy), w, h)
    }
}

} // verus!
