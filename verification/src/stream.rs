//! What a whole stream of raw events yields, and the laws of tapping and
//! panning that follow from the single steps in [`crate::gesture`].

use vstd::prelude::*;
use crate::fixed::sat_i32;
use crate::gesture::completes_double_tap;
use crate::gesture::delivered;
use crate::gesture::DOUBLE_TAP_MAX_DELAY;
use crate::gesture::DOUBLE_TAP_MAX_DISTANCE;
use crate::gesture::farther_than;
use crate::gesture::GestureDetectorTypes;
use crate::gesture::GestureEvent;
use crate::gesture::has_touch;
use crate::gesture::memo_after;
use crate::gesture::moved_touch;
use crate::gesture::RawInputEvent;
use crate::gesture::recognized;
use crate::gesture::TAP_MAX_DISTANCE;
use crate::gesture::TAP_MAX_DURATION;
use crate::gesture::TapMemo;
use crate::gesture::touch_index;
use crate::gesture::TouchClass;
use crate::gesture::touches_after;
use crate::gesture::TouchPointState;
use crate::transition::elapsed_between;

verus! {

/// The tracked fingers, the remembered tap and the gestures recognised after
/// the raw events `events` have been taken in, one after the other, starting
/// from the fingers `touches` and the remembered tap `memo`.
pub open spec fn run(touches: Seq<TouchPointState>, memo: Option<TapMemo>, events: Seq<RawInputEvent>)
    -> (Seq<TouchPointState>, Option<TapMemo>, Seq<GestureEvent>)
    decreases events.len(),
{
    if events.len() == 0 {
        (touches, memo, seq![])
    } else {
        let (ts, m, out) = run(touches, memo, events.drop_last());
        (
            touches_after(ts, events.last()),
            memo_after(ts, m, events.last()),
            out + recognized(ts, m, events.last()),
        )
    }
}

/// What a detector that reports the kinds `kinds` has pending after it has
/// taken in `events`, one after the other, starting with `pending`: each
/// event adds the gestures that it gives rise to and whose kind is enabled.
pub open spec fn queued(
    pending: Seq<GestureEvent>,
    touches: Seq<TouchPointState>,
    memo: Option<TapMemo>,
    kinds: Set<GestureDetectorTypes>,
    events: Seq<RawInputEvent>,
) -> Seq<GestureEvent>
    decreases events.len(),
{
    if events.len() == 0 {
        pending
    } else {
        let (ts, m, out) = run(touches, memo, events.drop_last());
        queued(pending, touches, memo, kinds, events.drop_last()) + delivered(
            recognized(ts, m, events.last()),
            kinds,
        )
    }
}

/// The displacement that the motions in `motions` add up to, each sum
/// saturating.
pub open spec fn displacement(motions: Seq<RawInputEvent>) -> (int, int)
    decreases motions.len(),
{
    if motions.len() == 0 {
        (0, 0)
    } else {
        let (mx, my) = displacement(motions.drop_last());
        match motions.last() {
            RawInputEvent::FingerMotion { dx, dy, .. } => (sat_i32(mx + dx), sat_i32(my + dy)),
            _ => (mx, my),
        }
    }
}

/// Every event of `motions` is a motion of the finger `id`.
pub open spec fn motions_of(motions: Seq<RawInputEvent>, id: i64) -> bool {
    forall|i: int|
        0 <= i < motions.len() ==> match #[trigger] motions[i] {
            RawInputEvent::FingerMotion { id: mid, .. } => mid == id,
            _ => false,
        }
}

/// A pan that has begun and not ended: `PanStart`, then one or more `Pan`.
pub open spec fn is_open_pan(g: Seq<GestureEvent>) -> bool {
    &&& g.len() >= 2
    &&& g[0] is PanStart
    &&& forall|i: int| 0 < i < g.len() ==> #[trigger] g[i] is Pan
}

/// A whole pan: `PanStart`, then one or more `Pan`, then `PanEnd`, and
/// nothing else.
pub open spec fn is_whole_pan(g: Seq<GestureEvent>) -> bool {
    &&& g.len() >= 3
    &&& g[0] is PanStart
    &&& g.last() is PanEnd
    &&& forall|i: int| 0 < i < g.len() - 1 ==> #[trigger] g[i] is Pan
}

/// Taking in `events` and then `e` is one more step after taking in `events`.
pub proof fn lemma_run_push(
    touches: Seq<TouchPointState>,
    memo: Option<TapMemo>,
    events: Seq<RawInputEvent>,
    e: RawInputEvent,
)
    ensures
        run(touches, memo, events.push(e)) == ({
            let (ts, m, out) = run(touches, memo, events);
            (touches_after(ts, e), memo_after(ts, m, e), out + recognized(ts, m, e))
        }),
{
    assert(events.push(e).drop_last() =~= events);
}

/// Leaving out the gestures of a kind that is not enabled can be done
/// piece by piece.
pub proof fn lemma_delivered_concat(
    a: Seq<GestureEvent>,
    b: Seq<GestureEvent>,
    kinds: Set<GestureDetectorTypes>,
)
    ensures
        delivered(a + b, kinds) == delivered(a, kinds) + delivered(b, kinds),
    decreases b.len(),
{
    if b.len() == 0 {
        assert(a + b =~= a);
        assert(delivered(a, kinds) + delivered(b, kinds) =~= delivered(a, kinds));
    } else {
        lemma_delivered_concat(a, b.drop_last(), kinds);
        assert((a + b).drop_last() =~= a + b.drop_last());
        assert(delivered(a + b, kinds) =~= delivered(a, kinds) + delivered(b, kinds));
    }
}

/// A detector that is fed event by event has pending, behind what was
/// pending before, exactly the gestures of the whole stream that are of an
/// enabled kind, in order.
pub proof fn lemma_queued(
    pending: Seq<GestureEvent>,
    touches: Seq<TouchPointState>,
    memo: Option<TapMemo>,
    kinds: Set<GestureDetectorTypes>,
    events: Seq<RawInputEvent>,
)
    ensures
        queued(pending, touches, memo, kinds, events) == pending + delivered(
            run(touches, memo, events).2,
            kinds,
        ),
    decreases events.len(),
{
    if events.len() == 0 {
        assert(pending + delivered(Seq::empty(), kinds) =~= pending);
    } else {
        let head = events.drop_last();
        let (ts, m, out) = run(touches, memo, head);
        let step = recognized(ts, m, events.last());
        lemma_queued(pending, touches, memo, kinds, head);
        lemma_delivered_concat(out, step, kinds);
        assert((pending + delivered(out, kinds)) + delivered(step, kinds) =~= pending + (delivered(
            out,
            kinds,
        ) + delivered(step, kinds)));
    }
}

/// A single tracked finger is found at position 0.
proof fn lemma_only_touch(tp: TouchPointState)
    ensures
        has_touch(seq![tp], tp.id),
        touch_index(seq![tp], tp.id) == 0,
        forall|id: i64| id != tp.id ==> !has_touch(seq![tp], id),
{
    assert(seq![tp][0].id == tp.id);
}

/// With no finger down, none is found.
proof fn lemma_no_touch(id: i64)
    ensures
        !has_touch(Seq::<TouchPointState>::empty(), id),
{
}

/// A finger that touches down alone and then only moves: until its
/// displacement has been farther than the tap distance it yields nothing
/// and its record holds the displacement so far; from then on it is a pan
/// that has begun.
pub proof fn lemma_single_finger_motions(
    memo: Option<TapMemo>,
    id: i64,
    x: i32,
    y: i32,
    t: u64,
    motions: Seq<RawInputEvent>,
)
    requires
        motions_of(motions, id),
    ensures
        ({
            let down = RawInputEvent::FingerDown { id, x, y, t };
            let (ts, m, out) = run(Seq::empty(), memo, seq![down] + motions);
            &&& m == memo
            &&& ts.len() == 1
            &&& ts[0].id == id
            &&& ts[0].start_time == t
            &&& ts[0].class != TouchClass::Pan ==> {
                &&& out == Seq::<GestureEvent>::empty()
                &&& (ts[0].moved_x as int, ts[0].moved_y as int) == displacement(motions)
                &&& motions.len() == 0 ==> ts[0].class == TouchClass::Undetermined
                &&& forall|k: int|
                    0 <= k <= motions.len() ==> !farther_than(
                        (#[trigger] displacement(motions.take(k))).0,
                        displacement(motions.take(k)).1,
                        TAP_MAX_DISTANCE as int,
                    )
            }
            &&& ts[0].class == TouchClass::Pan ==> is_open_pan(out)
        }),
    decreases motions.len(),
{
    let down = RawInputEvent::FingerDown { id, x, y, t };
    let none = Seq::<TouchPointState>::empty();
    if motions.len() == 0 {
        lemma_run_push(none, memo, Seq::empty(), down);
        lemma_no_touch(id);
        assert forall|k: int| 0 <= k <= motions.len() implies !farther_than(
            (#[trigger] displacement(motions.take(k))).0,
            displacement(motions.take(k)).1,
            TAP_MAX_DISTANCE as int,
        ) by {
            assert(!farther_than(0, 0, TAP_MAX_DISTANCE as int));
        }
    } else {
        let head = motions.drop_last();
        let e = motions.last();
        assert(motions_of(head, id)) by {
            assert forall|i: int| 0 <= i < head.len() implies match #[trigger] head[i] {
                RawInputEvent::FingerMotion { id: mid, .. } => mid == id,
                _ => false,
            } by {}
        }
        lemma_single_finger_motions(memo, id, x, y, t, head);
        assert(seq![down] + motions =~= (seq![down] + head).push(e));
        lemma_run_push(none, memo, seq![down] + head, e);
        let (ts0, m0, out0) = run(none, memo, seq![down] + head);
        let (ts, m, out) = run(none, memo, seq![down] + motions);
        let tp = ts0[0];
        lemma_only_touch(tp);
        match e {
            RawInputEvent::FingerMotion { id: mid, x: ex, y: ey, dx, dy, t: et } => {
                let after = moved_touch(tp, ex, ey, dx, dy, true);
                if tp.class != TouchClass::Pan && after.class == TouchClass::Pan {
                    assert(out =~= seq![
                        GestureEvent::PanStart { x: ex, y: ey },
                        GestureEvent::Pan { x: ex, y: ey, dx, dy },
                    ]);
                } else if tp.class != TouchClass::Pan {
                    assert forall|k: int| 0 <= k <= motions.len() implies !farther_than(
                        (#[trigger] displacement(motions.take(k))).0,
                        displacement(motions.take(k)).1,
                        TAP_MAX_DISTANCE as int,
                    ) by {
                        if k == motions.len() {
                            assert(motions.take(k) =~= motions);
                        } else {
                            assert(motions.take(k) =~= head.take(k));
                        }
                    }
                }
            },
            _ => {},
        }
    }
}

/// A finger that touches down with no other finger down and lifts at the
/// same point before the tap duration is over gives exactly one `Tap` at
/// that point, which is then remembered; when a remembered tap is close
/// enough in time and place, it gives exactly one `DoubleTap` instead, and
/// nothing stays remembered.
pub proof fn lemma_tap(memo: Option<TapMemo>, id: i64, x: i32, y: i32, t0: u64, t1: u64)
    requires
        elapsed_between(t0, t1) < TAP_MAX_DURATION,
    ensures
        ({
            let down = RawInputEvent::FingerDown { id, x, y, t: t0 };
            let up = RawInputEvent::FingerUp { id, x, y, t: t1 };
            let (ts, m, out) = run(Seq::empty(), memo, seq![down, up]);
            &&& ts == Seq::<TouchPointState>::empty()
            &&& !completes_double_tap(memo, x, y, t1) ==> {
                &&& out == seq![GestureEvent::Tap(x, y)]
                &&& m == Some(TapMemo { t: t1, x, y })
            }
            &&& completes_double_tap(memo, x, y, t1) ==> {
                &&& out == seq![GestureEvent::DoubleTap(x, y)]
                &&& m == None::<TapMemo>
            }
        }),
{
    let down = RawInputEvent::FingerDown { id, x, y, t: t0 };
    let up = RawInputEvent::FingerUp { id, x, y, t: t1 };
    let none = Seq::<TouchPointState>::empty();
    lemma_single_finger_motions(memo, id, x, y, t0, Seq::empty());
    assert(seq![down, up] =~= seq![down].push(up));
    lemma_run_push(none, memo, seq![down], up);
    lemma_only_touch(run(none, memo, seq![down]).0[0]);
}

/// Two taps in a row, the second close enough to the first in time and in
/// place, give one `Tap` followed by one `DoubleTap`, not two `Tap`s.
pub proof fn lemma_double_tap(
    id1: i64,
    x1: i32,
    y1: i32,
    t0: u64,
    t1: u64,
    id2: i64,
    x2: i32,
    y2: i32,
    t2: u64,
    t3: u64,
)
    requires
        elapsed_between(t0, t1) < TAP_MAX_DURATION,
        elapsed_between(t2, t3) < TAP_MAX_DURATION,
        elapsed_between(t1, t3) <= DOUBLE_TAP_MAX_DELAY,
        !farther_than(x2 - x1, y2 - y1, DOUBLE_TAP_MAX_DISTANCE as int),
    ensures
        run(
            Seq::empty(),
            None,
            seq![
                RawInputEvent::FingerDown { id: id1, x: x1, y: y1, t: t0 },
                RawInputEvent::FingerUp { id: id1, x: x1, y: y1, t: t1 },
                RawInputEvent::FingerDown { id: id2, x: x2, y: y2, t: t2 },
                RawInputEvent::FingerUp { id: id2, x: x2, y: y2, t: t3 },
            ],
        ) == (
            Seq::<TouchPointState>::empty(),
            None::<TapMemo>,
            seq![GestureEvent::Tap(x1, y1), GestureEvent::DoubleTap(x2, y2)],
        ),
{
    let d1 = RawInputEvent::FingerDown { id: id1, x: x1, y: y1, t: t0 };
    let u1 = RawInputEvent::FingerUp { id: id1, x: x1, y: y1, t: t1 };
    let d2 = RawInputEvent::FingerDown { id: id2, x: x2, y: y2, t: t2 };
    let u2 = RawInputEvent::FingerUp { id: id2, x: x2, y: y2, t: t3 };
    let none = Seq::<TouchPointState>::empty();
    lemma_tap(None, id1, x1, y1, t0, t1);
    let memo = Some(TapMemo { t: t1, x: x1, y: y1 });
    lemma_tap(memo, id2, x2, y2, t2, t3);
    lemma_run_append(none, None, seq![d1, u1], seq![d2, u2]);
    assert(seq![d1, u1] + seq![d2, u2] =~= seq![d1, u1, d2, u2]);
    assert(seq![GestureEvent::Tap(x1, y1)] + seq![GestureEvent::DoubleTap(x2, y2)] =~= seq![
        GestureEvent::Tap(x1, y1),
        GestureEvent::DoubleTap(x2, y2),
    ]);
}

/// Taking in `a` and then `b` is taking in `b` from where `a` has led.
pub proof fn lemma_run_append(
    touches: Seq<TouchPointState>,
    memo: Option<TapMemo>,
    a: Seq<RawInputEvent>,
    b: Seq<RawInputEvent>,
)
    ensures
        run(touches, memo, a + b) == ({
            let (ts, m, out) = run(touches, memo, a);
            let (ts2, m2, out2) = run(ts, m, b);
            (ts2, m2, out + out2)
        }),
    decreases b.len(),
{
    if b.len() > 0 {
        lemma_run_append(touches, memo, a, b.drop_last());
        assert((a + b).drop_last() =~= a + b.drop_last());
    }
}

/// A finger that touches down with no other finger down, moves until its
/// displacement has been farther than the tap distance, and lifts, gives
/// `PanStart`, then `Pan` events, then `PanEnd`: no `Tap` and no
/// `DoubleTap`, however short the touch.
pub proof fn lemma_pan(
    memo: Option<TapMemo>,
    id: i64,
    x: i32,
    y: i32,
    t: u64,
    motions: Seq<RawInputEvent>,
    ux: i32,
    uy: i32,
    ut: u64,
)
    requires
        motions_of(motions, id),
        exists|k: int|
            0 <= k <= motions.len() && farther_than(
                (#[trigger] displacement(motions.take(k))).0,
                displacement(motions.take(k)).1,
                TAP_MAX_DISTANCE as int,
            ),
    ensures
        ({
            let down = RawInputEvent::FingerDown { id, x, y, t };
            let up = RawInputEvent::FingerUp { id, x: ux, y: uy, t: ut };
            let (ts, m, out) = run(Seq::empty(), memo, (seq![down] + motions).push(up));
            &&& ts == Seq::<TouchPointState>::empty()
            &&& m == memo
            &&& is_whole_pan(out)
        }),
{
    let down = RawInputEvent::FingerDown { id, x, y, t };
    let up = RawInputEvent::FingerUp { id, x: ux, y: uy, t: ut };
    let none = Seq::<TouchPointState>::empty();
    lemma_single_finger_motions(memo, id, x, y, t, motions);
    lemma_run_push(none, memo, seq![down] + motions, up);
    lemma_only_touch(run(none, memo, seq![down] + motions).0[0]);
}

} // verus!
