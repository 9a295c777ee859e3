//! A time-based linear interpolator that drives snap-to-target animations.
//!
//! A transition never reads a clock: every query takes the current reading of
//! a monotonic millisecond clock, so that the same reading always gives the
//! same answer.

use vstd::prelude::*;
use crate::fixed::trunc_div;

verus! {

/// Milliseconds from `since` to `now` on a monotonic clock; a reading that
/// precedes `since` counts as no time at all.
pub open spec fn elapsed_between(since: u64, now: u64) -> int {
    if now >= since {
        now - since
    } else {
        0
    }
}

/// The interpolated value after `elapsed` of `duration` milliseconds:
/// `start + (target - start) * min(elapsed / duration, 1)`, the travelled
/// part rounded toward `start`. A transition of no duration is at `target`
/// from the outset.
pub open spec fn value_after(start: int, target: int, duration: int, elapsed: int) -> int {
    if elapsed >= duration {
        target
    } else {
        start + trunc_div((target - start) * elapsed, duration)
    }
}

/// A part `e` of `d` out of `n` never exceeds `d`.
proof fn lemma_part(d: int, e: int, n: int)
    requires
        0 <= d,
        0 <= e < n,
    ensures
        0 <= (d * e) / n <= d,
        e == 0 ==> (d * e) / n == 0,
{
    assert(0 <= d * e <= d * n) by (nonlinear_arith)
        requires
            0 <= d,
            0 <= e < n,
    ;
    assert((d * e) / n <= d) by (nonlinear_arith)
        requires
            0 <= d * e <= d * n,
            n > 0,
    ;
    assert((d * e) / n >= 0) by (nonlinear_arith)
        requires
            0 <= d * e,
            n > 0,
    ;
    if e == 0 {
        assert(d * e == 0) by (nonlinear_arith)
            requires
                e == 0,
        ;
    }
}

/// A larger part of the same whole is no smaller.
proof fn lemma_part_monotonic(d: int, e1: int, e2: int, n: int)
    requires
        0 <= d,
        0 <= e1 <= e2 < n,
    ensures
        (d * e1) / n <= (d * e2) / n,
{
    assert(d * e1 <= d * e2) by (nonlinear_arith)
        requires
            0 <= d,
            e1 <= e2,
    ;
    assert((d * e1) / n <= (d * e2) / n) by (nonlinear_arith)
        requires
            d * e1 <= d * e2,
            n > 0,
    ;
}

/// The interpolated value always lies between `start` and `target`.
pub proof fn lemma_value_between(start: int, target: int, duration: int, elapsed: int)
    requires
        0 <= elapsed,
        0 <= duration,
    ensures
        start <= target ==> start <= value_after(start, target, duration, elapsed) <= target,
        start >= target ==> start >= value_after(start, target, duration, elapsed) >= target,
{
    if elapsed < duration {
        if start <= target {
            lemma_part(target - start, elapsed, duration);
        } else {
            lemma_part(start - target, elapsed, duration);
            assert(-((target - start) * elapsed) == (start - target) * elapsed)
                by (nonlinear_arith);
        }
    }
}

/// The endpoints are exact: nothing has been travelled at the start of a
/// transition that takes any time, and the whole way once the duration has
/// passed.
pub proof fn lemma_value_endpoints(start: int, target: int, duration: int, elapsed: int)
    requires
        0 <= duration,
    ensures
        duration > 0 ==> value_after(start, target, duration, 0) == start,
        elapsed >= duration ==> value_after(start, target, duration, elapsed) == target,
{
}

/// The interpolated value moves monotonically from `start` toward `target`
/// as time passes.
pub proof fn lemma_value_monotonic(start: int, target: int, duration: int, e1: int, e2: int)
    requires
        0 <= e1 <= e2,
        0 <= duration,
    ensures
        start <= target ==> value_after(start, target, duration, e1) <= value_after(
            start,
            target,
            duration,
            e2,
        ),
        start >= target ==> value_after(start, target, duration, e1) >= value_after(
            start,
            target,
            duration,
            e2,
        ),
{
    lemma_value_between(start, target, duration, e1);
    lemma_value_between(start, target, duration, e2);
    if e2 < duration {
        if start <= target {
            lemma_part(target - start, e1, duration);
            lemma_part(target - start, e2, duration);
            lemma_part_monotonic(target - start, e1, e2, duration);
        } else {
            let d = start - target;
            lemma_part(d, e1, duration);
            lemma_part(d, e2, duration);
            lemma_part_monotonic(d, e1, e2, duration);
            assert(-((target - start) * e1) == d * e1) by (nonlinear_arith)
                requires
                    d == start - target,
            ;
            assert(-((target - start) * e2) == d * e2) by (nonlinear_arith)
                requires
                    d == start - target,
            ;
        }
    }
}

/// The mathematical content of a [`Transition`].
pub struct TransitionView {
    /// The value at the moment the transition was made.
    pub start: int,
    /// The value that the transition ends on.
    pub target: int,
    /// The length of the transition in milliseconds.
    pub duration: int,
    /// The clock reading at which the transition was made.
    pub start_time: u64,
}

impl TransitionView {
    /// The value of the transition when the clock reads `now`.
    pub open spec fn value_at(self, now: u64) -> int {
        value_after(self.start, self.target, self.duration, elapsed_between(self.start_time, now))
    }

    /// Whether the transition has run its whole duration when the clock
    /// reads `now`.
    pub open spec fn ended_at(self, now: u64) -> bool {
        elapsed_between(self.start_time, now) >= self.duration
    }
}

/// An animation of one value from `start` to `target` over a fixed
/// duration. Once made, a transition never changes.
#[derive(Clone, Copy, Debug)]
pub struct Transition {
    start: i32,
    target: i32,
    duration: u64,
    start_time: u64,
}

impl View for Transition {
    type V = TransitionView;

    closed spec fn view(&self) -> TransitionView {
        TransitionView {
            start: self.start as int,
            target: self.target as int,
            duration: self.duration as int,
            start_time: self.start_time,
        }
    }
}

impl Transition {
    /// A transition from `start` to `target` that takes `duration`
    /// milliseconds, beginning when the clock reads `now`.
    pub fn new(start: i32, target: i32, duration: u64, now: u64) -> (t: Transition)
        ensures
            t@ == (TransitionView {
                start: start as int,
                target: target as int,
                duration: duration as int,
                start_time: now,
            }),
    {
        Transition { start, target, duration, start_time: now }
    }

    /// The value that the transition ends on.
    pub fn target_val(&self) -> (v: i32)
        ensures
            v == self@.target,
    {
        self.target
    }

    /// The interpolated value when the clock reads `now`. It is `start`
    /// while no time has passed (unless the duration is zero), `target` once
    /// the duration has passed, and between the two otherwise.
    pub fn step(&self, now: u64) -> (v: i32)
        ensures
            v == self@.value_at(now),
            self@.ended_at(now) ==> v == self@.target,
            self@.duration > 0 && now <= self@.start_time ==> v == self@.start,
    {
        let elapsed: u64 = if now >= self.start_time {
            now - self.start_time
        } else {
            0
        };
        if elapsed >= self.duration {
            return self.target;
        }
        let d: i128 = self.target as i128 - self.start as i128;
        proof {
            lemma_value_between(
                self.start as int,
                self.target as int,
                self.duration as int,
                elapsed as int,
            );
            lemma_value_endpoints(
                self.start as int,
                self.target as int,
                self.duration as int,
                elapsed as int,
            );
            assert(-0x1_0000_0000 * 0x1_0000_0000_0000_0000 <= d * elapsed <= 0x1_0000_0000
                * 0x1_0000_0000_0000_0000) by (nonlinear_arith)
                requires
                    -0x1_0000_0000 <= d <= 0x1_0000_0000,
                    0 <= elapsed <= 0x1_0000_0000_0000_0000,
            ;
        }
        let travelled: i128 = (d * elapsed as i128) / (self.duration as i128);
        (self.start as i128 + travelled) as i32
    }

    /// Whether the transition has run its whole duration when the clock
    /// reads `now`. A transition of no duration has ended from the outset.
    pub fn at_end(&self, now: u64) -> (done: bool)
        ensures
            done == self@.ended_at(now),
    {
        let elapsed: u64 = if now >= self.start_time {
            now - self.start_time
        } else {
            0
        };
        elapsed >= self.duration
    }
}

/// A transition is at its start when it begins, provided that it takes any
/// time; it is at its target exactly from the moment its duration has
/// passed; and it has ended from that moment on and not before.
pub proof fn lemma_transition_ends(t: TransitionView, now: u64)
    requires
        0 <= t.duration,
    ensures
        t.duration > 0 ==> t.value_at(t.start_time) == t.start,
        t.ended_at(now) <==> now >= t.start_time + t.duration || t.duration == 0,
        t.ended_at(now) ==> t.value_at(now) == t.target,
        now == t.start_time + t.duration ==> t.ended_at(now) && t.value_at(now) == t.target,
{
    lemma_value_endpoints(t.start, t.target, t.duration, elapsed_between(t.start_time, now));
}

/// As the clock advances, the value of a transition moves from its start
/// toward its target and never back.
pub proof fn lemma_transition_monotonic(t: TransitionView, earlier: u64, later: u64)
    requires
        0 <= t.duration,
        earlier <= later,
    ensures
        t.start <= t.target ==> t.start <= t.value_at(earlier) <= t.value_at(later) <= t.target,
        t.start >= t.target ==> t.start >= t.value_at(earlier) >= t.value_at(later) >= t.target,
{
    let e1 = elapsed_between(t.start_time, earlier);
    let e2 = elapsed_between(t.start_time, later);
    lemma_value_monotonic(t.start, t.target, t.duration, e1, e2);
    lemma_value_between(t.start, t.target, t.duration, e1);
    lemma_value_between(t.start, t.target, t.duration, e2);
}

} // verus!
