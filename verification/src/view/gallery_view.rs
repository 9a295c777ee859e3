//! The grid of the thumbnails of a gallery. Where each thumbnail lies and
//! what a tap hits is defined in [`crate::thumbs`].

use vstd::prelude::*;
use crate::actions::Action;
use crate::display::FillMode;
use crate::display::Image;
use crate::gesture::GestureDetector;
use crate::gesture::GestureDetectorTypes;
use crate::gesture::GestureEvent;
use crate::gesture::RawInputEvent;
use crate::gesture::TapMemo;
use crate::gesture::TouchPointState;
use crate::model::Gallery;
use crate::rect::clamp_position;
use crate::rect::Point;
use crate::rect::PointView;
use crate::rect::Rect;
use crate::thumbs::center_of;
use crate::thumbs::first_under;
use crate::thumbs::frame_of;
use crate::thumbs::grid_outcome;
use crate::thumbs::hit;
use crate::thumbs::is_under;
use crate::thumbs::lemma_row_layout;
use crate::thumbs::per_row;
use crate::thumbs::sat_u32;
use crate::thumbs::THUMB_GAP;
use crate::thumbs::THUMB_H;
use crate::thumbs::thumb_side;
use crate::thumbs::THUMB_W;
use crate::utils::convert;

verus! {

/// `v` limited to the range of `u32`.
fn saturate_u32(v: u128) -> (r: u32)
    ensures
        r == sat_u32(v as int),
{
    if v > u32::MAX as u128 {
        u32::MAX
    } else {
        v as u32
    }
}

/// The grid of the thumbnails of a gallery.
pub struct GalleryView {
    images: Vec<Image>,
    dragging: bool,
    translate_y: i32,
    translate_y_pre: i32,
    gesture_detector: GestureDetector,
    width: u32,
    height: u32,
}

impl GalleryView {
    /// The thumbnails, in the order of the gallery.
    pub closed spec fn images(&self) -> Seq<Image> {
        self.images@
    }

    /// Whether the grid is being dragged.
    pub closed spec fn dragging(&self) -> bool {
        self.dragging
    }

    /// The size of the viewport in pixels, width first.
    pub closed spec fn viewport(&self) -> (u32, u32) {
        (self.width, self.height)
    }

    /// The gesture detector of the grid.
    pub closed spec fn detector(&self) -> GestureDetector {
        self.gesture_detector
    }

    /// The grid is consistent: its detector is, and has nothing pending.
    pub closed spec fn wf(&self) -> bool {
        &&& self.gesture_detector.wf()
        &&& self.gesture_detector.pending() == Seq::<GestureEvent>::empty()
    }

    /// The grid of the thumbnails of `gallery` in a viewport of `width` by
    /// `height` pixels: one remote image per picture, from its preview
    /// source, that covers its frame.
    pub fn new(gallery: &Gallery, width: u32, height: u32) -> (g: GalleryView)
        ensures
            g.wf(),
            g.viewport() == (width, height),
            !g.dragging(),
            g.images().len() == gallery.pics@.len(),
            forall|i: int|
                0 <= i < g.images().len() ==> {
                    &&& (#[trigger] g.images()[i]).src() == gallery.pics@[i].preview@
                    &&& g.images()[i].width() == THUMB_W
                    &&& g.images()[i].height() == THUMB_H
                    &&& g.images()[i].fill() == FillMode::Cover
                    &&& !g.images()[i].is_local()
                },
            g.detector().touches() == Seq::<TouchPointState>::empty(),
            g.detector().last_tap() == None::<TapMemo>,
            g.detector().enabled() == Set::<GestureDetectorTypes>::full(),
    {
        let mut images: Vec<Image> = Vec::new();
        let mut i: usize = 0;
        while i < gallery.pics.len()
            invariant
                i <= gallery.pics@.len(),
                images@.len() == i,
                forall|j: int|
                    0 <= j < i ==> {
                        &&& (#[trigger] images@[j]).src() == gallery.pics@[j].preview@
                        &&& images@[j].width() == THUMB_W
                        &&& images@[j].height() == THUMB_H
                        &&& images@[j].fill() == FillMode::Cover
                        &&& !images@[j].is_local()
                    },
            decreases gallery.pics.len() - i,
        {
            let mut img = Image::new_with_dimension(
                gallery.pics[i].preview.clone(),
                THUMB_W,
                THUMB_H,
            );
            img.set_fill(FillMode::Cover);
            images.push(img);
            i = i + 1;
        }
        GalleryView {
            images,
            dragging: false,
            translate_y: 0,
            translate_y_pre: 0,
            gesture_detector: GestureDetector::with_all_kinds(),
            width,
            height,
        }
    }

    /// The thumbnails, in the order of the gallery.
    pub fn get_images(&self) -> (imgs: &Vec<Image>)
        ensures
            imgs@ == self.images(),
    {
        &self.images
    }

    /// Whether the grid is being dragged.
    pub fn is_dragging(&self) -> (d: bool)
        ensures
            d == self.dragging(),
    {
        self.dragging
    }

    /// The grid takes part in the handling of input.
    pub fn is_interactive(&self) -> (r: bool)
        ensures
            r,
    {
        true
    }

    /// The layout of a row: the number of thumbnails in it, and the width
    /// and height of each.
    pub fn get_row_layout(&self) -> (l: (u32, u32, u32))
        ensures
            l.0 == per_row(self.viewport().0 as int),
            l.1 == thumb_side(self.viewport().0 as int),
            l.2 == l.1,
            l.0 >= 1,
    {
        proof {
            lemma_row_layout(self.width as int);
        }
        let usable = if self.width > THUMB_GAP {
            self.width - THUMB_GAP
        } else {
            0
        };
        let fit = usable / (THUMB_GAP + THUMB_W);
        let n = if fit < 1 {
            1
        } else {
            fit
        };
        let share = usable / n;
        let w = if share > THUMB_GAP {
            share - THUMB_GAP
        } else {
            0
        };
        (n, w, w)
    }

    /// The centre of the thumbnail at position `i` of a grid with `n`
    /// thumbnails of `w` by `h` pixels in a row.
    pub fn item_center(n: u32, w: u32, h: u32, i: usize) -> (c: (u32, u32))
        requires
            n > 0,
        ensures
            (c.0 as int, c.1 as int) == center_of(n as int, w as int, h as int, i as int),
    {
        let col: u128 = (i % (n as usize)) as u128;
        let row: u128 = (i / (n as usize)) as u128;
        proof {
            assert(0 <= (w + THUMB_GAP) * col <= 0x2_0000_0000 * 0x1_0000_0000_0000_0000)
                by (nonlinear_arith)
                requires
                    0 <= w + THUMB_GAP <= 0x2_0000_0000,
                    0 <= col <= 0x1_0000_0000_0000_0000,
            ;
            assert(0 <= (h + THUMB_GAP) * row <= 0x2_0000_0000 * 0x1_0000_0000_0000_0000)
                by (nonlinear_arith)
                requires
                    0 <= h + THUMB_GAP <= 0x2_0000_0000,
                    0 <= row <= 0x1_0000_0000_0000_0000,
            ;
        }
        let x: u128 = THUMB_GAP as u128 + (w / 2) as u128 + (w as u128 + THUMB_GAP as u128) * col;
        let y: u128 = THUMB_GAP as u128 + (h / 2) as u128 + (h as u128 + THUMB_GAP as u128) * row;
        (saturate_u32(x), saturate_u32(y))
    }

    /// The frame of the thumbnail at position `i`.
    pub fn item_frame(&self, i: usize) -> (r: Rect)
        ensures
            r@ == frame_of(self.viewport().0 as int, i as int),
    {
        let (n, w, h) = self.get_row_layout();
        let (cx, cy) = Self::item_center(n, w, h, i);
        let px = if cx > i32::MAX as u32 {
            i32::MAX
        } else {
            cx as i32
        };
        let py = if cy > i32::MAX as u32 {
            i32::MAX
        } else {
            cy as i32
        };
        Rect::from_center(Point::new(px, py), w, h)
    }

    /// The position of the first thumbnail under the pixel `(x, y)`, if
    /// there is one.
    pub fn image_under_point(&self, x: u32, y: u32) -> (found: Option<usize>)
        ensures
            found is Some <==> exists|i: int|
                0 <= i < self.images().len() && is_under(
                    self.viewport().0 as int,
                    i,
                    x as int,
                    y as int,
                ),
            found is Some ==> {
                &&& found->0 < self.images().len()
                &&& is_under(self.viewport().0 as int, found->0 as int, x as int, y as int)
                &&& forall|j: int|
                    0 <= j < found->0 ==> !is_under(self.viewport().0 as int, j, x as int, y as int)
            },
            (match found {
                Some(i) => Some(i as int),
                None => None,
            }) == hit(self.viewport().0 as int, self.images().len() as int, x as int, y as int),
    {
        let px = if x > i32::MAX as u32 {
            i32::MAX
        } else {
            x as i32
        };
        let py = if y > i32::MAX as u32 {
            i32::MAX
        } else {
            y as i32
        };
        let p = Point::new(px, py);
        let ghost width = self.width as int;
        let mut i: usize = 0;
        while i < self.images.len()
            invariant
                i <= self.images@.len(),
                width == self.width,
                p@ == (PointView {
                    x: clamp_position(x as int),
                    y: clamp_position(y as int),
                }),
                forall|j: int| 0 <= j < i ==> !is_under(width, j, x as int, y as int),
            decreases self.images.len() - i,
        {
            let r = self.item_frame(i);
            if r.contains_point(p) {
                proof {
                    let count = self.images@.len() as int;
                    let k = first_under(width, count, x as int, y as int);
                    assert(0 <= i < count && is_under(width, i as int, x as int, y as int)
                        && forall|j: int|
                        0 <= j < i ==> !is_under(width, j, x as int, y as int));
                    if k < i {
                        assert(!is_under(width, k, x as int, y as int));
                    }
                    if k > i {
                        assert(!is_under(width, i as int, x as int, y as int));
                    }
                }
                return Some(i);
            }
            i = i + 1;
        }
        None
    }

    /// Takes in one raw event. A pan drags the grid while it lasts; a tap
    /// on a thumbnail asks for that picture to be shown by itself. See
    /// [`grid_outcome`]. No gesture stays pending.
    pub fn handle_events(&mut self, evt: &RawInputEvent) -> (action: Option<Action>)
        requires
            old(self).wf(),
        ensures
            final(self).wf(),
            final(self).images() == old(self).images(),
            final(self).viewport() == old(self).viewport(),
            old(self).detector().leads_to(&final(self).detector(), *evt),
            (final(self).dragging(), action) == grid_outcome(
                old(self).dragging(),
                old(self).detector().yields(*evt),
                old(self).viewport().0,
                old(self).viewport().1,
                old(self).images().len() as int,
            ),
    {
        self.gesture_detector.feed(evt);
        let events = self.gesture_detector.poll();
        let ghost fed = self.gesture_detector;
        let ghost count = self.images@.len() as int;
        let ghost goal = grid_outcome(self.dragging, events@, self.width, self.height, count);
        proof {
            assert(events@.skip(0) =~= events@);
        }
        let mut i: usize = 0;
        while i < events.len()
            invariant
                i <= events.len(),
                self.wf(),
                self.detector() == fed,
                old(self).detector().leads_to(&fed, *evt),
                self.images() == old(self).images(),
                count == self.images@.len(),
                self.viewport() == old(self).viewport(),
                goal == grid_outcome(
                    old(self).dragging(),
                    old(self).detector().yields(*evt),
                    old(self).viewport().0,
                    old(self).viewport().1,
                    old(self).images().len() as int,
                ),
                goal == grid_outcome(
                    self.dragging,
                    events@.skip(i as int),
                    self.width,
                    self.height,
                    count,
                ),
            decreases events.len() - i,
        {
            proof {
                assert(events@.skip(i as int).drop_first() =~= events@.skip(i + 1));
            }
            match events[i] {
                GestureEvent::Tap(x, y) => {
                    let cx = convert(self.width, x);
                    let cy = convert(self.height, y);
                    let px: u32 = if cx < 0 {
                        0
                    } else {
                        cx as u32
                    };
                    let py: u32 = if cy < 0 {
                        0
                    } else {
                        cy as u32
                    };
                    match self.image_under_point(px, py) {
                        Some(k) => {
                            return Some(Action::ShowPreview(k));
                        },
                        None => {},
                    }
                },
                GestureEvent::PanStart { .. } => {
                    self.dragging = true;
                },
                GestureEvent::PanEnd { .. } => {
                    self.dragging = false;
                },
                _ => {},
            }
            i = i + 1;
        }
        None
    }
}

} // verus!
