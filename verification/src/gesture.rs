//! Recognition of taps, double taps, pans and pinches in a stream of raw
//! finger events.
//!
//! Positions and deltas are normalised viewport coordinates in fixed point
//! (see [`crate::fixed`]); timestamps are milliseconds on a monotonic clock.
//! The recogniser is a pure state machine: [`touches_after`],
//! [`memo_after`] and [`recognized`] say what one raw event does to
//! the tracked fingers, to the remembered tap, and which gestures it yields;
//! [`GestureDetector::feed`] computes exactly that.

use vstd::prelude::*;
use crate::fixed::sat_i32;
use crate::fixed::saturate_i32;
use crate::transition::elapsed_between;

verus! {

/// A finger may wander this far from where it touched down and still tap.
pub const TAP_MAX_DISTANCE: i64 = 10_000;

/// A touch that lasts this long, in milliseconds, or longer is no tap.
pub const TAP_MAX_DURATION: u64 = 300;

/// Two taps at most this many milliseconds apart make a double tap.
pub const DOUBLE_TAP_MAX_DELAY: u64 = 300;

/// Two taps at most this far apart make a double tap.
pub const DOUBLE_TAP_MAX_DISTANCE: i64 = 50_000;

/// A low-level pointer event as the input device reports it.
#[derive(Clone, Copy, Debug, PartialEq, Eq, Structural)]
pub enum RawInputEvent {
    FingerDown { id: i64, x: i32, y: i32, t: u64 },
    FingerUp { id: i64, x: i32, y: i32, t: u64 },
    FingerMotion { id: i64, x: i32, y: i32, dx: i32, dy: i32, t: u64 },
    MultiGesture { center_x: i32, center_y: i32, d_distance: i32, d_theta: i32, num_fingers: u16 },
}

/// A recognised gesture.
#[derive(Clone, Copy, Debug, PartialEq, Eq, Structural)]
pub enum GestureEvent {
    Tap(i32, i32),
    DoubleTap(i32, i32),
    PanStart { x: i32, y: i32 },
    Pan { x: i32, y: i32, dx: i32, dy: i32 },
    PanEnd { x: i32, y: i32 },
    PinchUpdate { center_x: i32, center_y: i32, d_scale: i32 },
}

/// The kinds of gesture that a detector can be asked to report.
#[derive(Clone, Copy, Debug, PartialEq, Eq, Structural)]
pub enum GestureDetectorTypes {
    Tap,
    DoubleTap,
    Pan,
    Pinch,
}

/// What a tracked finger has been found to be doing.
#[derive(Clone, Copy, Debug, PartialEq, Eq, Structural)]
pub enum TouchClass {
    /// The finger has not moved since it touched down.
    Undetermined,
    /// The finger has moved, but not enough to be a pan.
    TapCandidate,
    /// The finger is panning.
    Pan,
}

/// What the detector knows of one finger that is down.
#[derive(Clone, Copy, Debug, PartialEq, Eq, Structural)]
pub struct TouchPointState {
    pub id: i64,
    pub start_x: i32,
    pub start_y: i32,
    pub start_time: u64,
    pub last_x: i32,
    pub last_y: i32,
    /// Sum of the horizontal deltas since touch-down, saturating.
    pub moved_x: i32,
    /// Sum of the vertical deltas since touch-down, saturating.
    pub moved_y: i32,
    pub class: TouchClass,
}

/// The most recent tap, kept so that a second one can complete a double tap.
#[derive(Clone, Copy, Debug, PartialEq, Eq, Structural)]
pub struct TapMemo {
    pub t: u64,
    pub x: i32,
    pub y: i32,
}

/// Whether the displacement `(dx, dy)` is longer than `limit`.
pub open spec fn farther_than(dx: int, dy: int, limit: int) -> bool {
    dx * dx + dy * dy > limit * limit
}

/// The kind under which a gesture is enabled or disabled.
pub open spec fn kind_of(e: GestureEvent) -> GestureDetectorTypes {
    match e {
        GestureEvent::Tap(..) => GestureDetectorTypes::Tap,
        GestureEvent::DoubleTap(..) => GestureDetectorTypes::DoubleTap,
        GestureEvent::PanStart { .. } => GestureDetectorTypes::Pan,
        GestureEvent::Pan { .. } => GestureDetectorTypes::Pan,
        GestureEvent::PanEnd { .. } => GestureDetectorTypes::Pan,
        GestureEvent::PinchUpdate { .. } => GestureDetectorTypes::Pinch,
    }
}

/// Whether a finger with identity `id` is being tracked.
pub open spec fn has_touch(touches: Seq<TouchPointState>, id: i64) -> bool {
    exists|i: int| 0 <= i < touches.len() && #[trigger] touches[i].id == id
}

/// The position in `touches` of the finger with identity `id`.
pub open spec fn touch_index(touches: Seq<TouchPointState>, id: i64) -> int
    recommends
        has_touch(touches, id),
{
    choose|i: int| 0 <= i < touches.len() && #[trigger] touches[i].id == id
}

/// No two tracked fingers share an identity.
pub open spec fn distinct_ids(touches: Seq<TouchPointState>) -> bool {
    forall|i: int, j: int|
        0 <= i < touches.len() && 0 <= j < touches.len() && i != j ==> #[trigger] touches[i].id
            != #[trigger] touches[j].id
}

/// `touches` without the finger `id`, if it was there.
pub open spec fn without(touches: Seq<TouchPointState>, id: i64) -> Seq<TouchPointState> {
    if has_touch(touches, id) {
        touches.remove(touch_index(touches, id))
    } else {
        touches
    }
}

/// The record of a finger that has just touched down.
pub open spec fn fresh_touch(id: i64, x: i32, y: i32, t: u64) -> TouchPointState {
    TouchPointState {
        id,
        start_x: x,
        start_y: y,
        start_time: t,
        last_x: x,
        last_y: y,
        moved_x: 0,
        moved_y: 0,
        class: TouchClass::Undetermined,
    }
}

/// The record `tp` after its finger has moved by `(dx, dy)` to `(x, y)`,
/// while `alone` says whether it is the only finger down. A finger turns
/// into a pan once its displacement since touch-down is farther than
/// [`TAP_MAX_DISTANCE`]; with other fingers down nothing is decided.
pub open spec fn moved_touch(tp: TouchPointState, x: i32, y: i32, dx: i32, dy: i32, alone: bool)
    -> TouchPointState {
    let mx = sat_i32(tp.moved_x + dx) as i32;
    let my = sat_i32(tp.moved_y + dy) as i32;
    TouchPointState {
        last_x: x,
        last_y: y,
        moved_x: mx,
        moved_y: my,
        class: if tp.class == TouchClass::Pan {
            TouchClass::Pan
        } else if alone && farther_than(mx as int, my as int, TAP_MAX_DISTANCE as int) {
            TouchClass::Pan
        } else {
            TouchClass::TapCandidate
        },
        ..tp
    }
}

/// Whether lifting the finger `tp` at time `t` is a tap: it has not become
/// a pan, has stayed within [`TAP_MAX_DISTANCE`] if it moved at all, and
/// was down for less than [`TAP_MAX_DURATION`].
pub open spec fn is_tap(tp: TouchPointState, t: u64) -> bool {
    &&& tp.class == TouchClass::Undetermined || (tp.class == TouchClass::TapCandidate
        && !farther_than(tp.moved_x as int, tp.moved_y as int, TAP_MAX_DISTANCE as int))
    &&& elapsed_between(tp.start_time, t) < TAP_MAX_DURATION
}

/// Whether a tap at `(x, y)` at time `t` completes a double tap with the
/// remembered tap.
pub open spec fn completes_double_tap(memo: Option<TapMemo>, x: i32, y: i32, t: u64) -> bool {
    match memo {
        Some(m) => elapsed_between(m.t, t) <= DOUBLE_TAP_MAX_DELAY && !farther_than(
            x - m.x,
            y - m.y,
            DOUBLE_TAP_MAX_DISTANCE as int,
        ),
        None => false,
    }
}

/// The tracked fingers after the raw event `e`.
pub open spec fn touches_after(touches: Seq<TouchPointState>, e: RawInputEvent) -> Seq<
    TouchPointState,
> {
    match e {
        RawInputEvent::FingerDown { id, x, y, t } => without(touches, id).push(
            fresh_touch(id, x, y, t),
        ),
        RawInputEvent::FingerMotion { id, x, y, dx, dy, t } => if has_touch(touches, id) {
            let i = touch_index(touches, id);
            touches.update(i, moved_touch(touches[i], x, y, dx, dy, touches.len() == 1))
        } else {
            touches
        },
        RawInputEvent::FingerUp { id, x, y, t } => without(touches, id),
        RawInputEvent::MultiGesture { .. } => touches,
    }
}

/// The remembered tap after the raw event `e`: a tap is remembered, and a
/// double tap forgets it.
pub open spec fn memo_after(touches: Seq<TouchPointState>, memo: Option<TapMemo>, e: RawInputEvent)
    -> Option<TapMemo> {
    match e {
        RawInputEvent::FingerUp { id, x, y, t } => if has_touch(touches, id) && touches.len() == 1
            && is_tap(touches[touch_index(touches, id)], t) {
            if completes_double_tap(memo, x, y, t) {
                None
            } else {
                Some(TapMemo { t, x, y })
            }
        } else {
            memo
        },
        _ => memo,
    }
}

/// The gestures that the raw event `e` gives rise to, in order, before any
/// kind is filtered out.
pub open spec fn recognized(touches: Seq<TouchPointState>, memo: Option<TapMemo>, e: RawInputEvent)
    -> Seq<GestureEvent> {
    match e {
        RawInputEvent::FingerDown { .. } => seq![],
        RawInputEvent::FingerMotion { id, x, y, dx, dy, t } => if has_touch(touches, id)
            && touches.len() == 1 {
            let before = touches[touch_index(touches, id)];
            let after = moved_touch(before, x, y, dx, dy, true);
            if before.class == TouchClass::Pan {
                seq![GestureEvent::Pan { x, y, dx, dy }]
            } else if after.class == TouchClass::Pan {
                seq![GestureEvent::PanStart { x, y }, GestureEvent::Pan { x, y, dx, dy }]
            } else {
                seq![]
            }
        } else {
            seq![]
        },
        RawInputEvent::FingerUp { id, x, y, t } => if has_touch(touches, id) {
            let tp = touches[touch_index(touches, id)];
            if tp.class == TouchClass::Pan {
                seq![GestureEvent::PanEnd { x, y }]
            } else if touches.len() == 1 && is_tap(tp, t) {
                if completes_double_tap(memo, x, y, t) {
                    seq![GestureEvent::DoubleTap(x, y)]
                } else {
                    seq![GestureEvent::Tap(x, y)]
                }
            } else {
                seq![]
            }
        } else {
            seq![]
        },
        RawInputEvent::MultiGesture { center_x, center_y, d_distance, d_theta, num_fingers } =>
            if num_fingers >= 2 {
            seq![GestureEvent::PinchUpdate { center_x, center_y, d_scale: d_distance }]
        } else {
            seq![]
        },
    }
}

/// The gestures of `events` whose kind is in `kinds`, in the same order.
pub open spec fn delivered(events: Seq<GestureEvent>, kinds: Set<GestureDetectorTypes>) -> Seq<
    GestureEvent,
>
    decreases events.len(),
{
    if events.len() == 0 {
        seq![]
    } else {
        let rest = delivered(events.drop_last(), kinds);
        if kinds.contains(kind_of(events.last())) {
            rest.push(events.last())
        } else {
            rest
        }
    }
}

/// Whether the displacement `(dx, dy)` is longer than `limit`.
pub fn is_farther_than(dx: i64, dy: i64, limit: i64) -> (r: bool)
    ensures
        r == farther_than(dx as int, dy as int, limit as int),
{
    let x: i128 = dx as i128;
    let y: i128 = dy as i128;
    let l: i128 = limit as i128;
    assert(0 <= x * x <= 0x8000_0000_0000_0000 * 0x8000_0000_0000_0000) by (nonlinear_arith)
        requires
            -0x8000_0000_0000_0000 <= x <= 0x8000_0000_0000_0000,
    ;
    assert(0 <= y * y <= 0x8000_0000_0000_0000 * 0x8000_0000_0000_0000) by (nonlinear_arith)
        requires
            -0x8000_0000_0000_0000 <= y <= 0x8000_0000_0000_0000,
    ;
    assert(0 <= l * l <= 0x8000_0000_0000_0000 * 0x8000_0000_0000_0000) by (nonlinear_arith)
        requires
            -0x8000_0000_0000_0000 <= l <= 0x8000_0000_0000_0000,
    ;
    x * x > l * l - y * y
}

/// The stateful recogniser: it is fed raw events and polled for gestures.
pub struct GestureDetector {
    touches: Vec<TouchPointState>,
    last_tap: Option<TapMemo>,
    queue: Vec<GestureEvent>,
    tap: bool,
    double_tap: bool,
    pan: bool,
    pinch: bool,
}

impl GestureDetector {
    /// The fingers that are down, in the order in which they touched down.
    pub closed spec fn touches(&self) -> Seq<TouchPointState> {
        self.touches@
    }

    /// The most recent tap that no double tap has used up.
    pub closed spec fn last_tap(&self) -> Option<TapMemo> {
        self.last_tap
    }

    /// The gestures recognised since the last poll, in emission order.
    pub closed spec fn pending(&self) -> Seq<GestureEvent> {
        self.queue@
    }

    /// The kinds of gesture that this detector reports.
    pub closed spec fn enabled(&self) -> Set<GestureDetectorTypes> {
        Set::new(
            |k: GestureDetectorTypes|
                match k {
                    GestureDetectorTypes::Tap => self.tap,
                    GestureDetectorTypes::DoubleTap => self.double_tap,
                    GestureDetectorTypes::Pan => self.pan,
                    GestureDetectorTypes::Pinch => self.pinch,
                },
        )
    }

    /// No two tracked fingers share an identity.
    pub open spec fn wf(&self) -> bool {
        distinct_ids(self.touches())
    }

    /// The gestures that this detector reports for the raw event `e`:
    /// those that the event gives rise to, without those of a kind that is
    /// not enabled.
    pub open spec fn yields(&self, e: RawInputEvent) -> Seq<GestureEvent> {
        delivered(recognized(self.touches(), self.last_tap(), e), self.enabled())
    }

    /// Whether `after` is this detector once it has taken in the raw event
    /// `e` and handed over all that was pending.
    pub open spec fn leads_to(&self, after: &GestureDetector, e: RawInputEvent) -> bool {
        &&& after.enabled() == self.enabled()
        &&& after.touches() == touches_after(self.touches(), e)
        &&& after.last_tap() == memo_after(self.touches(), self.last_tap(), e)
        &&& after.pending() == Seq::<GestureEvent>::empty()
    }

    /// A detector that reports the kinds in `kinds` and no others, with no
    /// finger down, no tap remembered and nothing pending.
    pub fn new(kinds: Vec<GestureDetectorTypes>) -> (d: GestureDetector)
        ensures
            d.wf(),
            d.touches() == Seq::<TouchPointState>::empty(),
            d.last_tap() == None::<TapMemo>,
            d.pending() == Seq::<GestureEvent>::empty(),
            d.enabled() == kinds@.to_set(),
    {
        let mut tap = false;
        let mut double_tap = false;
        let mut pan = false;
        let mut pinch = false;
        let mut i: usize = 0;
        while i < kinds.len()
            invariant
                i <= kinds.len(),
                tap == kinds@.take(i as int).contains(GestureDetectorTypes::Tap),
                double_tap == kinds@.take(i as int).contains(GestureDetectorTypes::DoubleTap),
                pan == kinds@.take(i as int).contains(GestureDetectorTypes::Pan),
                pinch == kinds@.take(i as int).contains(GestureDetectorTypes::Pinch),
            decreases kinds.len() - i,
        {
            proof {
                let before = kinds@.take(i as int);
                let after = kinds@.take(i + 1);
                assert(after =~= before.push(kinds@[i as int]));
                assert forall|k: GestureDetectorTypes|
                    after.contains(k) == (before.contains(k) || k == kinds@[i as int]) by {
                    if before.contains(k) {
                        let j = choose|j: int| 0 <= j < before.len() && before[j] == k;
                        assert(after[j] == k);
                    }
                    if k == kinds@[i as int] {
                        assert(after[i as int] == k);
                    }
                }
            }
            match kinds[i] {
                GestureDetectorTypes::Tap => {
                    tap = true;
                },
                GestureDetectorTypes::DoubleTap => {
                    double_tap = true;
                },
                GestureDetectorTypes::Pan => {
                    pan = true;
                },
                GestureDetectorTypes::Pinch => {
                    pinch = true;
                },
            }
            i = i + 1;
        }
        let d = GestureDetector {
            touches: Vec::new(),
            last_tap: None,
            queue: Vec::new(),
            tap,
            double_tap,
            pan,
            pinch,
        };
        proof {
            assert(kinds@.take(kinds@.len() as int) =~= kinds@);
            assert(d.enabled() =~= kinds@.to_set());
        }
        d
    }

    /// A detector that reports every kind of gesture.
    pub fn with_all_kinds() -> (d: GestureDetector)
        ensures
            d.wf(),
            d.touches() == Seq::<TouchPointState>::empty(),
            d.last_tap() == None::<TapMemo>,
            d.pending() == Seq::<GestureEvent>::empty(),
            d.enabled() == Set::<GestureDetectorTypes>::full(),
    {
        let d = GestureDetector {
            touches: Vec::new(),
            last_tap: None,
            queue: Vec::new(),
            tap: true,
            double_tap: true,
            pan: true,
            pinch: true,
        };
        assert(d.enabled() =~= Set::<GestureDetectorTypes>::full());
        d
    }

    /// Whether the detector reports gestures of kind `kind`.
    pub fn is_enabled(&self, kind: GestureDetectorTypes) -> (r: bool)
        ensures
            r == self.enabled().contains(kind),
    {
        match kind {
            GestureDetectorTypes::Tap => self.tap,
            GestureDetectorTypes::DoubleTap => self.double_tap,
            GestureDetectorTypes::Pan => self.pan,
            GestureDetectorTypes::Pinch => self.pinch,
        }
    }

    /// The number of fingers that are down.
    pub fn active_fingers(&self) -> (n: usize)
        ensures
            n == self.touches().len(),
    {
        self.touches.len()
    }

    /// The position among the tracked fingers of the one with identity `id`.
    fn find(&self, id: i64) -> (r: Option<usize>)
        requires
            self.wf(),
        ensures
            r is Some <==> has_touch(self.touches(), id),
            r is Some ==> r->0 == touch_index(self.touches(), id) && r->0 < self.touches().len(),
    {
        let mut i: usize = 0;
        while i < self.touches.len()
            invariant
                self.wf(),
                i <= self.touches@.len(),
                forall|j: int| 0 <= j < i ==> (#[trigger] self.touches@[j]).id != id,
            decreases self.touches.len() - i,
        {
            if self.touches[i].id == id {
                proof {
                    assert(has_touch(self.touches(), id));
                    let k = touch_index(self.touches(), id);
                    if k != i {
                        assert(self.touches()[k].id != self.touches()[i as int].id);
                    }
                }
                return Some(i);
            }
            i = i + 1;
        }
        None
    }

    /// Queues the gesture `e` if its kind is enabled, and drops it otherwise.
    fn emit(&mut self, e: GestureEvent)
        ensures
            final(self).touches() == old(self).touches(),
            final(self).last_tap() == old(self).last_tap(),
            final(self).enabled() == old(self).enabled(),
            final(self).pending() == if old(self).enabled().contains(kind_of(e)) {
                old(self).pending().push(e)
            } else {
                old(self).pending()
            },
    {
        let on = match e {
            GestureEvent::Tap(..) => self.tap,
            GestureEvent::DoubleTap(..) => self.double_tap,
            GestureEvent::PanStart { .. } => self.pan,
            GestureEvent::Pan { .. } => self.pan,
            GestureEvent::PanEnd { .. } => self.pan,
            GestureEvent::PinchUpdate { .. } => self.pinch,
        };
        if on {
            self.queue.push(e);
        }
    }

    /// Takes in one raw event: the tracked fingers and the remembered tap
    /// change as [`touches_after`] and [`memo_after`] say, and the gestures
    /// that [`recognized`] names are queued behind those already pending,
    /// except those of a kind that is not enabled. An event for a finger
    /// that is not tracked changes nothing.
    pub fn feed(&mut self, event: &RawInputEvent)
        requires
            old(self).wf(),
        ensures
            final(self).wf(),
            final(self).enabled() == old(self).enabled(),
            final(self).touches() == touches_after(old(self).touches(), *event),
            final(self).last_tap() == memo_after(old(self).touches(), old(self).last_tap(), *event),
            final(self).pending() == old(self).pending() + delivered(
                recognized(old(self).touches(), old(self).last_tap(), *event),
                old(self).enabled(),
            ),
    {
        let ghost kinds = self.enabled();
        let ghost out = recognized(self.touches(), self.last_tap(), *event);
        match *event {
            RawInputEvent::FingerDown { id, x, y, t } => {
                match self.find(id) {
                    Some(i) => {
                        self.touches.remove(i);
                    },
                    None => {},
                }
                proof {
                    lemma_without_distinct(old(self).touches(), id);
                }
                self.touches.push(
                    TouchPointState {
                        id,
                        start_x: x,
                        start_y: y,
                        start_time: t,
                        last_x: x,
                        last_y: y,
                        moved_x: 0,
                        moved_y: 0,
                        class: TouchClass::Undetermined,
                    },
                );
                proof {
                    lemma_delivered_none(kinds);
                    assert(self.pending() =~= old(self).pending() + delivered(out, kinds));
                }
            },
            RawInputEvent::FingerMotion { id, x, y, dx, dy, t } => {
                match self.find(id) {
                    Some(i) => {
                        let before = self.touches[i];
                        let alone = self.touches.len() == 1;
                        let mx = saturate_i32(before.moved_x as i64 + dx as i64);
                        let my = saturate_i32(before.moved_y as i64 + dy as i64);
                        let class = if matches!(before.class, TouchClass::Pan) {
                            TouchClass::Pan
                        } else if alone && is_farther_than(mx as i64, my as i64, TAP_MAX_DISTANCE) {
                            TouchClass::Pan
                        } else {
                            TouchClass::TapCandidate
                        };
                        let after = TouchPointState {
                            id: before.id,
                            start_x: before.start_x,
                            start_y: before.start_y,
                            start_time: before.start_time,
                            last_x: x,
                            last_y: y,
                            moved_x: mx,
                            moved_y: my,
                            class,
                        };
                        assert(after == moved_touch(before, x, y, dx, dy, alone));
                        self.touches[i] = after;
                        if alone {
                            if matches!(before.class, TouchClass::Pan) {
                                self.emit(GestureEvent::Pan { x, y, dx, dy });
                                proof {
                                    lemma_delivered_one(GestureEvent::Pan { x, y, dx, dy }, kinds);
                                }
                            } else if matches!(class, TouchClass::Pan) {
                                self.emit(GestureEvent::PanStart { x, y });
                                self.emit(GestureEvent::Pan { x, y, dx, dy });
                                proof {
                                    lemma_delivered_one(GestureEvent::PanStart { x, y }, kinds);
                                    lemma_delivered_one(GestureEvent::Pan { x, y, dx, dy }, kinds);
                                    lemma_delivered_two(
                                        GestureEvent::PanStart { x, y },
                                        GestureEvent::Pan { x, y, dx, dy },
                                        kinds,
                                    );
                                }
                            } else {
                                proof {
                                    lemma_delivered_none(kinds);
                                }
                            }
                        } else {
                            proof {
                                lemma_delivered_none(kinds);
                            }
                        }
                        proof {
                            assert(self.pending() =~= old(self).pending() + delivered(out, kinds));
                        }
                    },
                    None => {
                        proof {
                            lemma_delivered_none(kinds);
                            assert(self.pending() =~= old(self).pending() + delivered(out, kinds));
                        }
                    },
                }
            },
            RawInputEvent::FingerUp { id, x, y, t } => {
                match self.find(id) {
                    Some(i) => {
                        let tp = self.touches[i];
                        let alone = self.touches.len() == 1;
                        self.touches.remove(i);
                        proof {
                            lemma_without_distinct(old(self).touches(), id);
                        }
                        if matches!(tp.class, TouchClass::Pan) {
                            self.emit(GestureEvent::PanEnd { x, y });
                            proof {
                                lemma_delivered_one(GestureEvent::PanEnd { x, y }, kinds);
                            }
                        } else if alone && tap_ends(&tp, t) {
                            if double_tap_ends(&self.last_tap, x, y, t) {
                                self.last_tap = None;
                                self.emit(GestureEvent::DoubleTap(x, y));
                                proof {
                                    lemma_delivered_one(GestureEvent::DoubleTap(x, y), kinds);
                                }
                            } else {
                                self.last_tap = Some(TapMemo { t, x, y });
                                self.emit(GestureEvent::Tap(x, y));
                                proof {
                                    lemma_delivered_one(GestureEvent::Tap(x, y), kinds);
                                }
                            }
                        } else {
                            proof {
                                lemma_delivered_none(kinds);
                            }
                        }
                        proof {
                            assert(self.pending() =~= old(self).pending() + delivered(out, kinds));
                        }
                    },
                    None => {
                        proof {
                            lemma_delivered_none(kinds);
                            assert(self.pending() =~= old(self).pending() + delivered(out, kinds));
                        }
                    },
                }
            },
            RawInputEvent::MultiGesture { center_x, center_y, d_distance, d_theta, num_fingers } => {
                if num_fingers >= 2 {
                    let g = GestureEvent::PinchUpdate { center_x, center_y, d_scale: d_distance };
                    self.emit(g);
                    proof {
                        lemma_delivered_one(g, kinds);
                    }
                } else {
                    proof {
                        lemma_delivered_none(kinds);
                    }
                }
                proof {
                    assert(self.pending() =~= old(self).pending() + delivered(out, kinds));
                }
            },
        }
    }

    /// Hands over the gestures recognised since the last poll, in emission
    /// order, and leaves none pending: each gesture is delivered once.
    pub fn poll(&mut self) -> (events: Vec<GestureEvent>)
        ensures
            events@ == old(self).pending(),
            final(self).pending() == Seq::<GestureEvent>::empty(),
            final(self).touches() == old(self).touches(),
            final(self).last_tap() == old(self).last_tap(),
            final(self).enabled() == old(self).enabled(),
    {
        let mut out: Vec<GestureEvent> = Vec::new();
        std::mem::swap(&mut self.queue, &mut out);
        out
    }

    /// Forgets every finger that is down. The remembered tap, the pending
    /// gestures and the enabled kinds stay as they are.
    pub fn reset(&mut self)
        ensures
            final(self).wf(),
            final(self).touches() == Seq::<TouchPointState>::empty(),
            final(self).last_tap() == old(self).last_tap(),
            final(self).pending() == old(self).pending(),
            final(self).enabled() == old(self).enabled(),
    {
        self.touches = Vec::new();
    }
}

/// Whether lifting the finger `tp` at time `t` is a tap.
fn tap_ends(tp: &TouchPointState, t: u64) -> (r: bool)
    ensures
        r == is_tap(*tp, t),
{
    let still = match tp.class {
        TouchClass::Undetermined => true,
        TouchClass::TapCandidate => !is_farther_than(
            tp.moved_x as i64,
            tp.moved_y as i64,
            TAP_MAX_DISTANCE,
        ),
        TouchClass::Pan => false,
    };
    let elapsed: u64 = if t >= tp.start_time {
        t - tp.start_time
    } else {
        0
    };
    still && elapsed < TAP_MAX_DURATION
}

/// Whether a tap at `(x, y)` at time `t` completes a double tap with the
/// remembered tap.
fn double_tap_ends(memo: &Option<TapMemo>, x: i32, y: i32, t: u64) -> (r: bool)
    ensures
        r == completes_double_tap(*memo, x, y, t),
{
    match memo {
        Some(m) => {
            let elapsed: u64 = if t >= m.t {
                t - m.t
            } else {
                0
            };
            elapsed <= DOUBLE_TAP_MAX_DELAY && !is_farther_than(
                x as i64 - m.x as i64,
                y as i64 - m.y as i64,
                DOUBLE_TAP_MAX_DISTANCE,
            )
        },
        None => false,
    }
}

/// Removing a finger keeps the identities distinct; the finger is gone
/// afterwards, so that it can touch down anew.
pub proof fn lemma_without_distinct(touches: Seq<TouchPointState>, id: i64)
    requires
        distinct_ids(touches),
    ensures
        distinct_ids(without(touches, id)),
        !has_touch(without(touches, id), id),
        forall|tp: TouchPointState|
            tp.id == id ==> distinct_ids(#[trigger] without(touches, id).push(tp)),
{
    let rest = without(touches, id);
    if has_touch(touches, id) {
        let k = touch_index(touches, id);
        assert forall|i: int| 0 <= i < rest.len() implies (#[trigger] rest[i]).id != id by {
            if i < k {
                assert(rest[i] == touches[i]);
            } else {
                assert(rest[i] == touches[i + 1]);
            }
        }
        assert forall|i: int, j: int|
            0 <= i < rest.len() && 0 <= j < rest.len() && i != j implies #[trigger] rest[i].id
            != #[trigger] rest[j].id by {
            let a = if i < k { i } else { i + 1 };
            let b = if j < k { j } else { j + 1 };
            assert(rest[i] == touches[a]);
            assert(rest[j] == touches[b]);
        }
    }
}

/// Nothing recognised, nothing delivered.
pub proof fn lemma_delivered_none(kinds: Set<GestureDetectorTypes>)
    ensures
        delivered(Seq::<GestureEvent>::empty(), kinds) == Seq::<GestureEvent>::empty(),
{
}

/// A single gesture is delivered exactly if its kind is enabled.
pub proof fn lemma_delivered_one(a: GestureEvent, kinds: Set<GestureDetectorTypes>)
    ensures
        delivered(seq![a], kinds) == if kinds.contains(kind_of(a)) {
            seq![a]
        } else {
            Seq::<GestureEvent>::empty()
        },
{
    reveal_with_fuel(delivered, 2);
    assert(seq![a].drop_last() =~= Seq::<GestureEvent>::empty());
    assert(Seq::<GestureEvent>::empty().push(a) =~= seq![a]);
}

/// Of two gestures, those of an enabled kind are delivered, in order.
pub proof fn lemma_delivered_two(a: GestureEvent, b: GestureEvent, kinds: Set<GestureDetectorTypes>)
    ensures
        delivered(seq![a, b], kinds) == delivered(seq![a], kinds) + delivered(seq![b], kinds),
{
    lemma_delivered_one(a, kinds);
    lemma_delivered_one(b, kinds);
    assert(seq![a, b].drop_last() =~= seq![a]);
    assert(delivered(seq![a, b], kinds) =~= delivered(seq![a], kinds) + delivered(seq![b], kinds));
}

} // verus!
