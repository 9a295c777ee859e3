//! The carousel: the current picture between its neighbours, paged by
//! horizontal pans and zoomed by double taps and pinches. What each gesture
//! and each frame does to the state is defined in [`crate::carousel`].

use vstd::prelude::*;
use crate::actions::Action;
use crate::carousel::CarouselState;
use crate::carousel::PINCH_SENSITIVITY;
use crate::carousel::PREVIEW_GAP;
use crate::carousel::SNAP_DURATION;
use crate::carousel::SNAP_THRESHOLD;
use crate::display::Image;
use crate::fixed::ONE;
use crate::fixed::sat_i32;
use crate::fixed::saturate_i32;
use crate::fixed::to_pixels;
use crate::fixed::whole_pixels;
use crate::gesture::GestureDetector;
use crate::gesture::GestureDetectorTypes;
use crate::gesture::GestureEvent;
use crate::gesture::RawInputEvent;
use crate::gesture::TapMemo;
use crate::gesture::TouchPointState;
use crate::loader::LoadRegister;
use crate::loader::size_in;
use crate::model::Gallery;
use crate::model::source_at;
use crate::model::urls_of;
use crate::rect::clamp_position;
use crate::rect::Rect;
use crate::rect::RectView;
use crate::scroll::ScrollState;
use crate::transition::Transition;
use crate::transition::TransitionView;
use crate::view::scroll_view::ScrollView;

verus! {

/// Where the three views of a [`Preview`] are drawn.
#[derive(Clone, Copy, Debug, PartialEq, Eq)]
pub struct PreviewLayout {
    /// The frame of the previous picture, if any of it is in sight.
    pub prev: Option<Rect>,
    /// The frame of the current picture.
    pub curr: Rect,
    /// The frame of the next picture, if any of it is in sight.
    pub next: Option<Rect>,
}

/// The carousel: the current picture between its neighbours, paged by
/// horizontal pans and zoomed by double taps and pinches.
pub struct Preview {
    prev: ScrollView,
    curr: ScrollView,
    next: ScrollView,
    width: u32,
    height: u32,
    dragging: bool,
    translate_x: i32,
    translate_x_pre: i32,
    img_idx: usize,
    transition: Option<Transition>,
    gesture_detector: GestureDetector,
    gallery: Gallery,
}

impl View for Preview {
    type V = CarouselState;

    closed spec fn view(&self) -> CarouselState {
        CarouselState {
            prev: self.prev@,
            curr: self.curr@,
            next: self.next@,
            prev_src: self.prev.content().src(),
            curr_src: self.curr.content().src(),
            next_src: self.next.content().src(),
            width: self.width as int,
            height: self.height as int,
            dragging: self.dragging,
            translate_x: self.translate_x as int,
            translate_x_pre: self.translate_x_pre as int,
            index: self.img_idx as int,
            transition: match self.transition {
                Some(t) => Some(t@),
                None => None,
            },
            urls: urls_of(self.gallery.pics@),
        }
    }
}

impl Preview {
    /// The carousel is consistent: its state meets [`CarouselState::ok`],
    /// its detector is consistent and has nothing pending, and its pictures
    /// are remote.
    pub closed spec fn wf(&self) -> bool {
        &&& self@.ok()
        &&& self.prev.wf()
        &&& self.curr.wf()
        &&& self.next.wf()
        &&& !self.prev.content().is_local()
        &&& !self.curr.content().is_local()
        &&& !self.next.content().is_local()
        &&& self.gesture_detector.wf()
        &&& self.gesture_detector.pending() == Seq::<GestureEvent>::empty()
    }

    /// The gesture detector of the carousel.
    pub closed spec fn detector(&self) -> GestureDetector {
        self.gesture_detector
    }

    /// A consistent carousel meets the invariant of its state, and its
    /// detector has nothing pending.
    pub proof fn lemma_wf(&self)
        requires
            self.wf(),
        ensures
            self@.ok(),
            self.detector().wf(),
            self.detector().pending() == Seq::<GestureEvent>::empty(),
    {
    }

    /// The carousel of `gallery` in a viewport of `width` by `height`
    /// pixels, showing the first picture, at rest.
    pub fn new(width: u32, height: u32, gallery: Gallery, reg: &LoadRegister) -> (p: Preview)
        ensures
            p.wf(),
            p@.width == width,
            p@.height == height,
            p@.urls == urls_of(gallery.pics@),
            p@.index == 0,
            p@.translate_x == 0,
            p@.translate_x_pre == 0,
            !p@.dragging,
            p@.transition is None,
            p@.prev_src == source_at(p@.urls, -1),
            p@.curr_src == source_at(p@.urls, 0),
            p@.next_src == source_at(p@.urls, 1),
            p@.prev == (ScrollState { frame: Rect::new_view(0, 0, width, height), ..ScrollState::fresh() }).cleared(size_in(reg.sizes(), p@.prev_src)),
            p@.curr == (ScrollState { frame: Rect::new_view(0, 0, width, height), ..ScrollState::fresh() }).cleared(size_in(reg.sizes(), p@.curr_src)),
            p@.next == (ScrollState { frame: Rect::new_view(0, 0, width, height), ..ScrollState::fresh() }).cleared(size_in(reg.sizes(), p@.next_src)),
            p.detector().touches() == Seq::<TouchPointState>::empty(),
            p.detector().last_tap() == None::<TapMemo>,
            p.detector().enabled() == Set::<GestureDetectorTypes>::full(),
    {
        let mut prev = ScrollView::new(Image::new_with_dimension(String::new(), width, height));
        prev.set_rect(0, 0, width, height);
        let mut curr = ScrollView::new(Image::new_with_dimension(String::new(), width, height));
        curr.set_rect(0, 0, width, height);
        let mut next = ScrollView::new(Image::new_with_dimension(String::new(), width, height));
        next.set_rect(0, 0, width, height);
        let count = gallery.pics.len();
        assert(urls_of(gallery.pics@).len() == count);
        let mut g = Preview {
            prev,
            curr,
            next,
            width,
            height,
            dragging: false,
            translate_x: 0,
            translate_x_pre: 0,
            img_idx: 0,
            transition: None,
            gesture_detector: GestureDetector::with_all_kinds(),
            gallery,
        };
        g.set_curr_image(0, reg);
        g
    }

    /// The outer translation in pixels.
    pub fn translate_x(&self) -> (x: i32)
        ensures
            x == self@.translate_x,
    {
        self.translate_x
    }

    /// The position of the current picture in the gallery.
    pub fn img_idx(&self) -> (i: usize)
        ensures
            i == self@.index,
    {
        self.img_idx
    }

    /// Whether the carousel is being dragged.
    pub fn is_dragging(&self) -> (d: bool)
        ensures
            d == self@.dragging,
    {
        self.dragging
    }

    /// The running transition, if there is one.
    pub fn transition(&self) -> (t: Option<Transition>)
        ensures
            t is Some == self@.transition is Some,
            t is Some ==> t->0@ == self@.transition->0,
    {
        self.transition
    }

    /// The view of the previous picture.
    pub fn prev(&self) -> (v: &ScrollView)
        ensures
            v@ == self@.prev,
            v.content().src() == self@.prev_src,
    {
        &self.prev
    }

    /// The view of the current picture.
    pub fn curr(&self) -> (v: &ScrollView)
        ensures
            v@ == self@.curr,
            v.content().src() == self@.curr_src,
    {
        &self.curr
    }

    /// The view of the next picture.
    pub fn next(&self) -> (v: &ScrollView)
        ensures
            v@ == self@.next,
            v.content().src() == self@.next_src,
    {
        &self.next
    }

    /// The carousel takes part in the handling of input.
    pub fn is_interactive(&self) -> (r: bool)
        ensures
            r,
    {
        true
    }

    /// Comes on stage: with a parameter, the picture at that position of
    /// the gallery is made current.
    pub fn on_start(&mut self, params: Option<usize>, reg: &LoadRegister)
        requires
            old(self).wf(),
        ensures
            final(self).wf(),
            final(self)@ == old(self)@.started(params, reg.sizes()),
            final(self).detector() == old(self).detector(),
    {
        match params {
            Some(i) => {
                self.set_curr_image(i, reg);
            },
            None => {},
        }
    }

    /// Makes its neighbour current once the carousel has come to lie on
    /// it; see [`CarouselState::rotated`].
    pub fn rotate(&mut self, reg: &LoadRegister)
        requires
            old(self).wf(),
        ensures
            final(self).wf(),
            final(self)@ == old(self)@.rotated(reg.sizes()),
            final(self).detector() == old(self).detector(),
    {
        let pitch: i64 = self.width as i64 + PREVIEW_GAP as i64;
        let len = self.gallery.pics.len();
        if self.translate_x > 0 && self.img_idx >= 1 {
            self.translate_x = saturate_i32(self.translate_x as i64 - pitch);
            let p = self.img_idx - 1;
            self.set_curr_image(p, reg);
        } else if self.translate_x < 0 && len > 0 && self.img_idx < len - 1 {
            self.translate_x = saturate_i32(self.translate_x as i64 + pitch);
            let i = self.img_idx + 1;
            self.set_curr_image(i, reg);
        }
    }

    /// Makes the picture at position `idx` current; see
    /// [`CarouselState::showing`]. The outer translation, the drag and a
    /// running transition stay as they are.
    pub fn set_curr_image(&mut self, idx: usize, reg: &LoadRegister)
        requires
            old(self).wf(),
        ensures
            final(self).wf(),
            final(self)@ == old(self)@.showing(idx as int, reg.sizes()),
            final(self).detector() == old(self).detector(),
    {
        proof {
            reveal_strlit("");
            assert(""@ =~= Seq::<char>::empty());
        }
        let len = self.gallery.pics.len();
        if idx >= 1 && idx - 1 < len {
            self.prev.set_remote_src(self.gallery.pics[idx - 1].url.as_str());
        } else {
            self.prev.set_remote_src("");
        }
        self.prev.reset(reg);
        if idx < len {
            self.curr.set_remote_src(self.gallery.pics[idx].url.as_str());
        } else {
            self.curr.set_remote_src("");
        }
        self.curr.reset(reg);
        if idx < len && idx + 1 < len {
            self.next.set_remote_src(self.gallery.pics[idx + 1].url.as_str());
        } else {
            self.next.set_remote_src("");
        }
        self.next.reset(reg);
        self.img_idx = idx;
        proof {
            self.prev.lemma_wf();
            self.curr.lemma_wf();
            self.next.lemma_wf();
        }
    }

    /// Begins a transition of the outer translation to `x` that takes
    /// `duration` milliseconds from `now`. A running transition is
    /// dropped.
    fn move_to(&mut self, x: i32, duration: u64, now: u64)
        requires
            old(self).wf(),
            !old(self)@.dragging,
        ensures
            final(self).wf(),
            final(self)@ == (CarouselState {
                transition: Some(
                    TransitionView {
                        start: old(self)@.translate_x,
                        target: x as int,
                        duration: duration as int,
                        start_time: now,
                    },
                ),
                ..old(self)@
            }),
            final(self).detector() == old(self).detector(),
    {
        self.transition = Some(Transition::new(self.translate_x, x, duration, now));
    }

    /// Applies one gesture at time `now`; see [`CarouselState::handled`].
    /// The position of the current picture never changes here.
    pub fn handle_gesture(&mut self, g: &GestureEvent, now: u64, reg: &LoadRegister)
        requires
            old(self).wf(),
        ensures
            final(self).wf(),
            final(self)@ == old(self)@.handled(*g, now, reg.sizes()),
            final(self)@.index == old(self)@.index,
            final(self).detector() == old(self).detector(),
    {
        match *g {
            GestureEvent::Tap(..) => {},
            GestureEvent::DoubleTap(..) => {
                if self.transition.is_none() {
                    if self.curr.zoom_mode() {
                        self.curr.exit_zoom(reg);
                    } else {
                        self.curr.enter_zoom(reg);
                    }
                    proof {
                        self.curr.lemma_wf();
                    }
                }
            },
            GestureEvent::PanStart { .. } => {
                self.dragging = true;
                self.transition = None;
                self.translate_x_pre = self.translate_x;
            },
            GestureEvent::Pan { x, y, dx, dy } => {
                let mut dxp: i64 = to_pixels(dx, self.width);
                let dyp: i64 = to_pixels(dy, self.height);
                proof {
                    assert(-0x8000_0000 * 0xffff_ffff <= dx * self.width <= 0x7fff_ffff
                        * 0xffff_ffff) by (nonlinear_arith)
                        requires
                            -0x8000_0000 <= dx <= 0x7fff_ffff,
                            0 <= self.width <= 0xffff_ffff,
                    ;
                }
                if self.translate_x > 0 && dxp < 0 || self.translate_x < 0 && dxp > 0 {
                    let tx: i64 = self.translate_x as i64;
                    let room: i64 = if tx < 0 {
                        -tx * ONE
                    } else {
                        tx * ONE
                    };
                    let len: i64 = if dxp < 0 {
                        -dxp
                    } else {
                        dxp
                    };
                    let part: i64 = if len < room {
                        len
                    } else {
                        room
                    };
                    let moved: i64 = if dxp < 0 {
                        -part
                    } else {
                        part
                    };
                    self.translate_x = (tx + moved / ONE) as i32;
                    dxp = dxp - moved;
                }
                if self.curr.zoom_mode() {
                    let rest = self.curr.move_by(dxp, dyp);
                    dxp = rest.0;
                    proof {
                        self.curr.lemma_wf();
                    }
                }
                self.translate_x = saturate_i32(
                    self.translate_x as i64 + saturate_i32(whole_pixels(dxp)) as i64,
                );
            },
            GestureEvent::PanEnd { .. } => {
                self.dragging = false;
                let delta: i64 = self.translate_x as i64 - self.translate_x_pre as i64;
                let len = self.gallery.pics.len();
                let pitch: i64 = self.width as i64 + PREVIEW_GAP as i64;
                let target: i64 = if delta > SNAP_THRESHOLD as i64 && self.img_idx != 0 {
                    pitch
                } else if delta < -(SNAP_THRESHOLD as i64) && len > 0 && self.img_idx < len - 1 {
                    -pitch
                } else {
                    0
                };
                self.move_to(saturate_i32(target), SNAP_DURATION, now);
            },
            GestureEvent::PinchUpdate { center_x, center_y, d_scale } => {
                if self.transition.is_none() {
                    self.curr.scale_by(
                        to_pixels(center_x, self.width),
                        to_pixels(center_y, self.height),
                        d_scale as i64 * PINCH_SENSITIVITY,
                        reg,
                    );
                    proof {
                        self.curr.lemma_wf();
                    }
                }
            },
        }
    }

    /// Takes in one raw event at time `now`: the detector recognises what
    /// gestures it completes, and the carousel applies them in order. No
    /// gesture stays pending, and the position of the current picture
    /// never changes here. The carousel itself asks for no change of
    /// scene.
    pub fn handle_events(&mut self, evt: &RawInputEvent, now: u64, reg: &LoadRegister) -> (action:
        Option<Action>)
        requires
            old(self).wf(),
        ensures
            final(self).wf(),
            action is None,
            old(self).detector().leads_to(&final(self).detector(), *evt),
            final(self)@ == old(self)@.handled_all(
                old(self).detector().yields(*evt),
                now,
                reg.sizes(),
            ),
            final(self)@.index == old(self)@.index,
    {
        self.gesture_detector.feed(evt);
        let events = self.gesture_detector.poll();
        let ghost fed = self.gesture_detector;
        let mut i: usize = 0;
        while i < events.len()
            invariant
                i <= events.len(),
                self.wf(),
                self.detector() == fed,
                self@ == old(self)@.handled_all(events@.take(i as int), now, reg.sizes()),
                self@.index == old(self)@.index,
            decreases events.len() - i,
        {
            proof {
                assert(events@.take(i + 1).drop_last() =~= events@.take(i as int));
            }
            self.handle_gesture(&events[i], now, reg);
            i = i + 1;
        }
        proof {
            assert(events@.take(events@.len() as int) =~= events@);
        }
        None
    }

    /// One frame at time `now`; see [`CarouselState::updated`]. The
    /// position of the current picture changes only when a transition has
    /// ended.
    pub fn update(&mut self, now: u64, reg: &LoadRegister)
        requires
            old(self).wf(),
        ensures
            final(self).wf(),
            final(self)@ == old(self)@.updated(now, reg.sizes()),
            final(self).detector() == old(self).detector(),
            final(self)@.index != old(self)@.index ==> !old(self)@.dragging && old(
                self,
            )@.transition is Some && old(self)@.transition->0.ended_at(now),
    {
        if !self.dragging {
            if self.curr.zoom_mode() {
                self.curr.update();
                proof {
                    self.curr.lemma_wf();
                }
            }
        }
        if !self.dragging {
            match self.transition {
                Some(t) => {
                    self.translate_x = t.step(now);
                    if t.at_end(now) {
                        self.transition = None;
                        self.rotate(reg);
                    }
                },
                None => {},
            }
        }
    }

    /// Where the three views are drawn when the carousel is shown in
    /// `rect`: the current view shifted by the outer translation, the
    /// previous one a pitch to its left if the translation is positive,
    /// the next one a pitch to its right if it is negative.
    pub fn layout(&self, rect: Rect) -> (l: PreviewLayout)
        ensures
            l.curr@ == (RectView { x: clamp_position(rect@.x + self@.translate_x), ..rect@ }),
            l.prev is Some <==> self@.translate_x > 0,
            l.prev is Some ==> l.prev->0@ == (RectView {
                x: clamp_position(rect@.x + sat_i32(self@.translate_x - self@.pitch())),
                ..rect@
            }),
            l.next is Some <==> self@.translate_x < 0,
            l.next is Some ==> l.next->0@ == (RectView {
                x: clamp_position(rect@.x + sat_i32(self@.translate_x + self@.pitch())),
                ..rect@
            }),
    {
        let pitch: i64 = self.width as i64 + PREVIEW_GAP as i64;
        let top = rect.y();
        assert(clamp_position(top + 0) == top);
        let prev = if self.translate_x > 0 {
            let mut r0 = rect;
            r0.offset(saturate_i32(self.translate_x as i64 - pitch), 0);
            Some(r0)
        } else {
            None
        };
        let mut r1 = rect;
        r1.offset(self.translate_x, 0);
        let next = if self.translate_x < 0 {
            let mut r2 = rect;
            r2.offset(saturate_i32(self.translate_x as i64 + pitch), 0);
            Some(r2)
        } else {
            None
        };
        PreviewLayout { prev, curr: r1, next }
    }
}

} // verus!
