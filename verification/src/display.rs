//! What is displayed: images, and a button. How an image fits a frame is
//! defined in [`crate::fit`].

use vstd::prelude::*;
use vstd::string::StringExecFns;
use crate::actions::Action;
use crate::fit::contain_of;
use crate::fit::cover_of;
use crate::fit::is_wider_than;
use crate::fit::lemma_contain_fits;
use crate::fit::rescale;
use crate::fixed::sat_i32;
use crate::fixed::saturate_i32;
use crate::fixed::trunc_div;
use crate::gesture::GestureDetector;
use crate::gesture::GestureDetectorTypes;
use crate::gesture::GestureEvent;
use crate::gesture::RawInputEvent;
use crate::gesture::TapMemo;
use crate::gesture::TouchPointState;
use crate::loader::DEFAULT_IMG;
use crate::loader::is_decode_of;
use crate::loader::is_fetch_of;
use crate::loader::load_img;
use crate::loader::load_local_img;
use crate::loader::LoadRegister;
use crate::loader::LoadRequest;
use crate::loader::LOCAL_IMG_PREFIX;
use crate::loader::local_key;
use crate::loader::size_in;
use crate::rect::clamp_position;
use crate::rect::Point;
use crate::rect::PointView;
use crate::rect::Rect;
use crate::rect::RectView;
use crate::utils::convert;
use crate::utils::converted;

verus! {

/// How an image fills a frame whose aspect ratio differs from its own.
#[derive(Clone, Copy, Debug, PartialEq, Eq, Structural)]
pub enum FillMode {
    /// The image covers the whole frame and may be cropped.
    Cover,
    /// The whole image is visible and may leave margins.
    Contain,
}

/// The size at which an image of the natural size `img` is drawn in a frame
/// of `w` by `h` pixels.
pub open spec fn fitted_size(fill: FillMode, img: (u32, u32), w: int, h: int) -> (int, int) {
    match fill {
        FillMode::Contain => contain_of(img.0 as int, img.1 as int, w, h),
        FillMode::Cover => cover_of(img.0 as int, img.1 as int, w, h),
    }
}

/// Where an image of the natural size `img` is drawn in the frame `frame`:
/// at its fitted size, centred on the frame.
pub open spec fn target_in(fill: FillMode, img: (u32, u32), frame: RectView) -> RectView {
    let (w, h) = fitted_size(fill, img, frame.w, frame.h);
    Rect::new_view(
        sat_i32(trunc_div(frame.w - w, 2) + frame.x) as i32,
        sat_i32(trunc_div(frame.h - h, 2) + frame.y) as i32,
        w as u32,
        h as u32,
    )
}

/// How to draw an image: which texture, what part of it, and where.
#[derive(Debug, PartialEq, Eq)]
pub struct RenderPlan {
    /// The key of the texture to draw.
    pub key: String,
    /// The part of the texture to draw: all of it.
    pub source: Rect,
    /// Where to draw it.
    pub target: Rect,
    /// What nothing may be drawn outside of: the frame.
    pub clip: Rect,
}

/// An image to be shown: where it comes from and how it fills its frame.
/// An image from the network is loaded when it is first asked for; one
/// from the local disk counts as loaded from the outset.
pub struct Image {
    src: String,
    w: u32,
    h: u32,
    fill: FillMode,
    local: bool,
}

impl Image {
    /// The source of the image; empty for no image.
    pub closed spec fn src(&self) -> Seq<char> {
        self.src@
    }

    /// The width that the image was made with.
    pub closed spec fn width(&self) -> u32 {
        self.w
    }

    /// The height that the image was made with.
    pub closed spec fn height(&self) -> u32 {
        self.h
    }

    /// How the image fills its frame.
    pub closed spec fn fill(&self) -> FillMode {
        self.fill
    }

    /// Whether the image comes from the local disk.
    pub closed spec fn is_local(&self) -> bool {
        self.local
    }

    /// The key under which the image is registered once it is loaded.
    pub open spec fn key(&self) -> Seq<char> {
        if self.is_local() {
            local_key(self.src())
        } else {
            self.src()
        }
    }

    /// A remote image from `src`, without dimensions, that is fitted into
    /// its frame.
    pub fn new(src: String) -> (img: Image)
        ensures
            img.src() == src@,
            img.width() == 0,
            img.height() == 0,
            img.fill() == FillMode::Contain,
            !img.is_local(),
    {
        Image { src, w: 0, h: 0, fill: FillMode::Contain, local: false }
    }

    /// A local image from the file `src` with the dimensions `w` by `h`,
    /// together with the request to decode it, which is due unless `src` is
    /// empty or the file is loaded already.
    pub fn new_with_dimension_local(src: String, w: u32, h: u32, reg: &LoadRegister) -> (r: (
        Image,
        Option<LoadRequest>,
    ))
        ensures
            r.0.src() == src@,
            r.0.width() == w,
            r.0.height() == h,
            r.0.fill() == FillMode::Contain,
            r.0.is_local(),
            r.1 is Some <==> src@.len() > 0 && !reg.sizes().contains_key(local_key(src@)),
            r.1 is Some ==> is_decode_of(r.1->0, src@),
    {
        let req = if src.as_str().is_empty() {
            None
        } else {
            load_local_img(reg, src.as_str())
        };
        (Image { src, w, h, fill: FillMode::Contain, local: true }, req)
    }

    /// A remote image from `src` with the dimensions `w` by `h`.
    pub fn new_with_dimension(src: String, w: u32, h: u32) -> (img: Image)
        ensures
            img.src() == src@,
            img.width() == w,
            img.height() == h,
            img.fill() == FillMode::Contain,
            !img.is_local(),
    {
        Image { src, w, h, fill: FillMode::Contain, local: false }
    }

    /// Whether loading this image asks for the placeholder first.
    pub open spec fn needs_default(reg: &LoadRegister) -> bool {
        !reg.default_requested() && !reg.sizes().contains_key(local_key(DEFAULT_IMG@))
    }

    /// Whether loading this image asks for the image itself.
    pub open spec fn needs_load(&self, reg: &LoadRegister) -> bool {
        if self.is_local() {
            !reg.sizes().contains_key(local_key(self.src()))
        } else {
            !reg.loading().contains(self.src()) && !reg.sizes().contains_key(self.src())
        }
    }

    /// Sees to it that the image gets loaded, and returns the requests that
    /// are due, in order. An image without a source asks for nothing and
    /// changes nothing. Otherwise the first load of any image asks for the
    /// placeholder; then a local image asks to be decoded unless it is
    /// loaded, and a remote image asks to be fetched, and is marked as in
    /// flight, unless it is loaded or in flight.
    pub fn load(&self, reg: &mut LoadRegister) -> (reqs: Vec<LoadRequest>)
        ensures
            final(reg).sizes() == old(reg).sizes(),
            self.src().len() == 0 ==> reqs@.len() == 0 && final(reg).loading() == old(
                reg,
            ).loading() && final(reg).default_requested() == old(reg).default_requested(),
            self.src().len() > 0 ==> {
                let first = Self::needs_default(old(reg));
                let second = self.needs_load(old(reg));
                &&& final(reg).default_requested()
                &&& reqs@.len() == (if first { 1int } else { 0 }) + (if second { 1int } else { 0 })
                &&& first ==> is_decode_of(reqs@[0], DEFAULT_IMG@)
                &&& second && self.is_local() ==> is_decode_of(reqs@.last(), self.src())
                &&& second && !self.is_local() ==> is_fetch_of(reqs@.last(), self.src())
                &&& final(reg).loading() == if second && !self.is_local() {
                    old(reg).loading().insert(self.src())
                } else {
                    old(reg).loading()
                }
            },
    {
        let mut reqs: Vec<LoadRequest> = Vec::new();
        if self.src.as_str().is_empty() {
            return reqs;
        }
        match reg.request_default() {
            Some(r) => {
                reqs.push(r);
            },
            None => {},
        }
        let own = if self.local {
            load_local_img(reg, self.src.as_str())
        } else {
            load_img(reg, self.src.as_str())
        };
        match own {
            Some(r) => {
                reqs.push(r);
            },
            None => {},
        }
        reqs
    }

    /// Whether the image can be shown: a local image always, a remote one
    /// once it is registered under its source.
    pub fn is_loaded(&self, reg: &LoadRegister) -> (r: bool)
        ensures
            r == (self.is_local() || reg.sizes().contains_key(self.src())),
    {
        if self.local {
            return true;
        }
        reg.size_of(self.src.as_str()).is_some()
    }

    /// The source of the image.
    pub fn get_src(&self) -> (s: &str)
        ensures
            s@ == self.src(),
    {
        self.src.as_str()
    }

    /// Points the image at another source without loading anything.
    pub(crate) fn assign_src(&mut self, src: &str)
        ensures
            final(self).src() == src@,
            final(self).width() == old(self).width(),
            final(self).height() == old(self).height(),
            final(self).fill() == old(self).fill(),
            final(self).is_local() == old(self).is_local(),
    {
        self.src = src.to_owned();
    }

    /// Points the image at another source. A local image is loaded at once,
    /// as by [`Image::load`], and the requests that are due are returned; a
    /// remote one asks for nothing until it is loaded.
    pub fn set_src(&mut self, src: &str, reg: &mut LoadRegister) -> (reqs: Vec<LoadRequest>)
        ensures
            final(self).src() == src@,
            final(self).width() == old(self).width(),
            final(self).height() == old(self).height(),
            final(self).fill() == old(self).fill(),
            final(self).is_local() == old(self).is_local(),
            final(reg).sizes() == old(reg).sizes(),
            !old(self).is_local() || src@.len() == 0 ==> reqs@.len() == 0 && final(reg).loading()
                == old(reg).loading() && final(reg).default_requested() == old(
                reg,
            ).default_requested(),
            old(self).is_local() && src@.len() > 0 ==> {
                let first = Self::needs_default(old(reg));
                let second = !old(reg).sizes().contains_key(local_key(src@));
                &&& final(reg).default_requested()
                &&& final(reg).loading() == old(reg).loading()
                &&& reqs@.len() == (if first { 1int } else { 0 }) + (if second { 1int } else { 0 })
                &&& first ==> is_decode_of(reqs@[0], DEFAULT_IMG@)
                &&& second ==> is_decode_of(reqs@.last(), src@)
            },
    {
        self.assign_src(src);
        if self.local {
            self.load(reg)
        } else {
            Vec::new()
        }
    }

    /// Chooses how the image fills its frame.
    pub fn set_fill(&mut self, v: FillMode)
        ensures
            final(self).fill() == v,
            final(self).src() == old(self).src(),
            final(self).width() == old(self).width(),
            final(self).height() == old(self).height(),
            final(self).is_local() == old(self).is_local(),
    {
        self.fill = v;
    }

    /// The natural width and height of the image, once it is registered
    /// under its source.
    pub fn get_img_size(&self, reg: &LoadRegister) -> (size: Option<(u32, u32)>)
        ensures
            size == size_in(reg.sizes(), self.src()),
    {
        reg.size_of(self.src.as_str())
    }

    /// The size at which an image of `img_w` by `img_h` covers a frame of
    /// `w` by `h`: one side equals the frame's, the other is at least the
    /// frame's for an image that has an area.
    pub fn cover_size(img_w: u32, img_h: u32, w: u32, h: u32) -> (size: (u32, u32))
        ensures
            (size.0 as int, size.1 as int) == cover_of(
                img_w as int,
                img_h as int,
                w as int,
                h as int,
            ),
    {
        if is_wider_than(img_w, img_h, w, h) {
            (rescale(h, img_w, img_h), h)
        } else {
            (w, rescale(w, img_h, img_w))
        }
    }

    /// The size at which an image of `img_w` by `img_h` fits into a frame
    /// of `w` by `h`: one side equals the frame's, the other is at most the
    /// frame's.
    pub fn contain_size(img_w: u32, img_h: u32, w: u32, h: u32) -> (size: (u32, u32))
        ensures
            (size.0 as int, size.1 as int) == contain_of(
                img_w as int,
                img_h as int,
                w as int,
                h as int,
            ),
            size.0 <= w,
            size.1 <= h,
    {
        proof {
            lemma_contain_fits(img_w as int, img_h as int, w as int, h as int);
        }
        if is_wider_than(img_w, img_h, w, h) {
            (w, rescale(w, img_h, img_w))
        } else {
            (rescale(h, img_w, img_h), h)
        }
    }

    /// The key of the texture that stands for this image: its own if it is
    /// loaded, else the placeholder's if that is loaded. An image without a
    /// source has none.
    pub open spec fn texture_key(&self, sizes: Map<Seq<char>, (u32, u32)>) -> Option<Seq<char>> {
        if self.src().len() == 0 {
            None
        } else if sizes.contains_key(self.key()) {
            Some(self.key())
        } else if sizes.contains_key(local_key(DEFAULT_IMG@)) {
            Some(local_key(DEFAULT_IMG@))
        } else {
            None
        }
    }

    /// How to draw the image in the frame `rect`, if there is anything to
    /// draw: the texture of [`Image::texture_key`], all of it, at its
    /// fitted size in the middle of the frame, and clipped to the frame.
    pub fn render_plan(&self, reg: &LoadRegister, rect: Rect) -> (plan: Option<RenderPlan>)
        ensures
            plan is Some <==> self.texture_key(reg.sizes()) is Some,
            plan is Some ==> {
                let key = self.texture_key(reg.sizes())->0;
                let size = reg.sizes()[key];
                &&& plan->0.key@ == key
                &&& plan->0.source@ == Rect::new_view(0, 0, size.0, size.1)
                &&& plan->0.target@ == target_in(self.fill(), size, rect@)
                &&& plan->0.clip == rect
            },
    {
        if self.src.as_str().is_empty() {
            return None;
        }
        let own = if self.local {
            String::from_str(LOCAL_IMG_PREFIX).concat(self.src.as_str())
        } else {
            self.src.clone()
        };
        let key = if reg.size_of(own.as_str()).is_some() {
            own
        } else {
            String::from_str(LOCAL_IMG_PREFIX).concat(DEFAULT_IMG)
        };
        match reg.size_of(key.as_str()) {
            Some((img_w, img_h)) => {
                let source = Rect::new(0, 0, img_w, img_h);
                let fw = rect.width();
                let fh = rect.height();
                let (w, h) = match self.fill {
                    FillMode::Contain => Self::contain_size(img_w, img_h, fw, fh),
                    FillMode::Cover => Self::cover_size(img_w, img_h, fw, fh),
                };
                let x = saturate_i32((fw as i64 - w as i64) / 2 + rect.x() as i64);
                let y = saturate_i32((fh as i64 - h as i64) / 2 + rect.y() as i64);
                let target = Rect::new(x, y, w, h);
                Some(RenderPlan { key, source, target, clip: rect })
            },
            None => None,
        }
    }
}

impl Default for Image {
    /// A remote image without a source or dimensions.
    fn default() -> (img: Image)
        ensures
            img.src() == Seq::<char>::empty(),
            img.width() == 0,
            img.height() == 0,
            img.fill() == FillMode::Contain,
            !img.is_local(),
    {
        Image { src: String::new(), w: 0, h: 0, fill: FillMode::Contain, local: false }
    }
}

/// Whether the gesture `g` is a tap that lands in the rectangle `rect` of a
/// viewport of `width` by `height` pixels.
pub open spec fn taps_in(g: GestureEvent, rect: RectView, width: u32, height: u32) -> bool {
    match g {
        GestureEvent::Tap(x, y) => rect.contains(
            PointView {
                x: clamp_position(converted(width, x)),
                y: clamp_position(converted(height, y)),
            },
        ),
        _ => false,
    }
}

/// Whether one of the gestures `gs` presses a button at `rect`.
pub open spec fn presses(gs: Seq<GestureEvent>, rect: RectView, width: u32, height: u32) -> bool {
    exists|i: int| 0 <= i < gs.len() && taps_in(#[trigger] gs[i], rect, width, height)
}

/// A button that leads back to the gallery when it is tapped.
pub struct Button {
    rect: Rect,
    img: Option<Image>,
    gesture_detector: GestureDetector,
}

impl Button {
    /// The rectangle that the button occupies.
    pub closed spec fn rect(&self) -> Rect {
        self.rect
    }

    /// The image that the button shows, if it has one.
    pub closed spec fn img(&self) -> Option<Image> {
        self.img
    }

    /// The gesture detector of the button.
    pub closed spec fn detector(&self) -> GestureDetector {
        self.gesture_detector
    }

    /// The button is consistent: its detector is, and has nothing pending.
    pub closed spec fn wf(&self) -> bool {
        &&& self.gesture_detector.wf()
        &&& self.gesture_detector.pending() == Seq::<GestureEvent>::empty()
    }

    /// A button at `rect` without an image. It reacts to taps and to
    /// nothing else.
    pub fn new(rect: Rect) -> (b: Button)
        ensures
            b.wf(),
            b.rect() == rect,
            b.img() is None,
            b.detector().touches() == Seq::<TouchPointState>::empty(),
            b.detector().last_tap() == None::<TapMemo>,
            b.detector().enabled() == set![GestureDetectorTypes::Tap],
    {
        let mut kinds: Vec<GestureDetectorTypes> = Vec::new();
        kinds.push(GestureDetectorTypes::Tap);
        let gesture_detector = GestureDetector::new(kinds);
        proof {
            assert(kinds@ =~= seq![GestureDetectorTypes::Tap]);
            assert(kinds@[0] == GestureDetectorTypes::Tap);
            assert(kinds@.to_set() =~= set![GestureDetectorTypes::Tap]);
        }
        Button { rect, img: None, gesture_detector }
    }

    /// Gives the button an image to show.
    pub fn set_img(&mut self, img: Image)
        ensures
            final(self).img() == Some(img),
            final(self).rect() == old(self).rect(),
            final(self).detector() == old(self).detector(),
            final(self).wf() == old(self).wf(),
    {
        self.img = Some(img);
    }

    /// The button takes part in the handling of input.
    pub fn is_interactive(&self) -> (r: bool)
        ensures
            r,
    {
        true
    }

    /// How to draw the button: its image, if it has one, in its rectangle.
    pub fn render_plan(&self, reg: &LoadRegister) -> (plan: Option<RenderPlan>)
        ensures
            plan is Some <==> self.img() is Some && self.img()->0.texture_key(reg.sizes()) is Some,
            plan is Some ==> {
                let img = self.img()->0;
                let key = img.texture_key(reg.sizes())->0;
                let size = reg.sizes()[key];
                &&& plan->0.key@ == key
                &&& plan->0.source@ == Rect::new_view(0, 0, size.0, size.1)
                &&& plan->0.target@ == target_in(img.fill(), size, self.rect()@)
                &&& plan->0.clip == self.rect()
            },
    {
        match &self.img {
            Some(img) => img.render_plan(reg, self.rect),
            None => None,
        }
    }

    /// Takes in one raw event of a viewport of `width` by `height` pixels,
    /// and asks for the gallery to be shown if the event completes a tap
    /// that lands on the button. No gesture stays pending.
    pub fn handle_events(&mut self, evt: &RawInputEvent, width: u32, height: u32) -> (action:
        Option<Action>)
        requires
            old(self).wf(),
        ensures
            final(self).wf(),
            final(self).rect() == old(self).rect(),
            final(self).img() == old(self).img(),
            old(self).detector().leads_to(&final(self).detector(), *evt),
            action == if presses(
                old(self).detector().yields(*evt),
                old(self).rect()@,
                width,
                height,
            ) {
                Some(Action::ShowGallery)
            } else {
                None
            },
    {
        self.gesture_detector.feed(evt);
        let events = self.gesture_detector.poll();
        let ghost fed = self.gesture_detector;
        proof {
            assert(Seq::<GestureEvent>::empty() + events@ =~= events@);
        }
        let mut i: usize = 0;
        while i < events.len()
            invariant
                i <= events.len(),
                self.wf(),
                self.rect() == old(self).rect(),
                self.img() == old(self).img(),
                self.detector() == fed,
                old(self).detector().leads_to(&fed, *evt),
                events@ == old(self).detector().yields(*evt),
                forall|j: int|
                    0 <= j < i ==> !taps_in(#[trigger] events@[j], self.rect()@, width, height),
            decreases events.len() - i,
        {
            match events[i] {
                GestureEvent::Tap(x, y) => {
                    let p = Point::new(convert(width, x), convert(height, y));
                    if self.rect.contains_point(p) {
                        assert(taps_in(events@[i as int], self.rect()@, width, height));
                        return Some(Action::ShowGallery);
                    }
                },
                _ => {},
            }
            i = i + 1;
        }
        None
    }
}

} // verus!
