//! A fixed-window moving average.
//!
//! Per-frame pan deltas jitter with the event rate, so the velocity that seeds
//! momentum is the mean of the last few deltas rather than the final one.

use vstd::prelude::*;
use crate::fixed::trunc_div;

verus! {

/// Sum of the elements of `s`.
pub open spec fn sum(s: Seq<i64>) -> int
    decreases s.len(),
{
    if s.len() == 0 {
        0
    } else {
        sum(s.drop_last()) + s.last()
    }
}

/// Arithmetic mean of `s`, rounded toward zero; 0 for the empty sequence.
pub open spec fn mean_of(s: Seq<i64>) -> int {
    if s.len() == 0 {
        0
    } else {
        trunc_div(sum(s), s.len() as int)
    }
}

/// The window `s` of capacity `cap` after `v` arrives: `v` is appended, and
/// the oldest element leaves if the window was full.
pub open spec fn pushed(s: Seq<i64>, cap: nat, v: i64) -> Seq<i64> {
    if cap == 0 {
        s
    } else if s.len() < cap {
        s.push(v)
    } else {
        s.drop_first().push(v)
    }
}

/// The sum of a concatenation is the sum of the sums.
pub proof fn lemma_sum_concat(a: Seq<i64>, b: Seq<i64>)
    ensures
        sum(a + b) == sum(a) + sum(b),
    decreases b.len(),
{
    if b.len() > 0 {
        assert((a + b).drop_last() =~= a + b.drop_last());
        lemma_sum_concat(a, b.drop_last());
    }
}

/// The sum of `n` values of type `i64` lies within `n` times the range of
/// the type.
pub proof fn lemma_sum_bounds(s: Seq<i64>)
    ensures
        s.len() * (i64::MIN as int) <= sum(s) <= s.len() * (i64::MAX as int),
    decreases s.len(),
{
    if s.len() > 0 {
        lemma_sum_bounds(s.drop_last());
        assert(s.len() * (i64::MIN as int) == (s.len() - 1) * (i64::MIN as int) + (i64::MIN as int))
            by (nonlinear_arith);
        assert(s.len() * (i64::MAX as int) == (s.len() - 1) * (i64::MAX as int) + (i64::MAX as int))
            by (nonlinear_arith);
    }
}

/// The mean of values of type `i64` is itself within the range of `i64`.
pub proof fn lemma_mean_bounds(s: Seq<i64>)
    ensures
        i64::MIN <= mean_of(s) <= i64::MAX,
{
    if s.len() > 0 {
        lemma_sum_bounds(s);
        let n = s.len() as int;
        let t = sum(s);
        if t >= 0 {
            assert(t / n <= i64::MAX as int) by (nonlinear_arith)
                requires
                    n > 0,
                    0 <= t <= n * (i64::MAX as int),
            ;
            assert(t / n >= 0) by (nonlinear_arith)
                requires
                    n > 0,
                    0 <= t,
            ;
        } else {
            assert((-t) / n <= -(i64::MIN as int)) by (nonlinear_arith)
                requires
                    n > 0,
                    0 <= -t <= n * (-(i64::MIN as int)),
            ;
            assert((-t) / n >= 0) by (nonlinear_arith)
                requires
                    n > 0,
                    0 <= -t,
            ;
        }
    }
}

/// A moving average over the last `capacity` values pushed.
pub struct Mean {
    buf: Vec<i64>,
    head: usize,
    cap: usize,
}

impl View for Mean {
    type V = Seq<i64>;

    /// The buffered values, oldest first.
    closed spec fn view(&self) -> Seq<i64> {
        self.buf@.subrange(self.head as int, self.buf@.len() as int) + self.buf@.subrange(
            0,
            self.head as int,
        )
    }
}

impl Mean {
    /// The ring buffer is consistent: it never holds more than `capacity`
    /// values, and the oldest one sits at `head`.
    pub closed spec fn wf(&self) -> bool {
        &&& self.buf@.len() <= self.cap
        &&& self.head <= self.buf@.len()
        &&& self.buf@.len() < self.cap ==> self.head == 0
        &&& self.buf@.len() > 0 ==> self.head < self.buf@.len()
    }

    /// The size of the window.
    pub closed spec fn capacity(&self) -> nat {
        self.cap as nat
    }

    /// In a consistent buffer the window never exceeds the capacity.
    pub proof fn lemma_len(&self)
        requires
            self.wf(),
        ensures
            self@.len() <= self.capacity(),
    {
    }

    /// An empty window over the last `capacity` values.
    pub fn new(capacity: usize) -> (m: Mean)
        ensures
            m.wf(),
            m@ == Seq::<i64>::empty(),
            m.capacity() == capacity,
    {
        Mean { buf: Vec::new(), head: 0, cap: capacity }
    }

    /// Records `value`, evicting the oldest value once the window is full.
    pub fn push(&mut self, value: i64)
        requires
            old(self).wf(),
        ensures
            final(self).wf(),
            final(self).capacity() == old(self).capacity(),
            final(self)@ == pushed(old(self)@, old(self).capacity(), value),
    {
        if self.cap == 0 {
            return ;
        }
        if self.buf.len() < self.cap {
            self.buf.push(value);
        } else {
            let head = self.head;
            self.buf[head] = value;
            self.head = if head + 1 == self.cap {
                0
            } else {
                head + 1
            };
        }
    }

    /// The number of values in the window.
    pub fn len(&self) -> (n: usize)
        requires
            self.wf(),
        ensures
            n == self@.len(),
    {
        self.buf.len()
    }

    /// The arithmetic mean of the window, rounded toward zero, or 0 when the
    /// window is empty.
    pub fn get(&self) -> (r: i64)
        requires
            self.wf(),
        ensures
            r == mean_of(self@),
    {
        let n = self.buf.len();
        if n == 0 {
            return 0;
        }
        let mut acc: i128 = 0;
        let mut i: usize = 0;
        while i < n
            invariant
                n == self.buf@.len(),
                i <= n,
                acc == sum(self.buf@.take(i as int)),
            decreases n - i,
        {
            proof {
                let next = self.buf@.take(i + 1);
                assert(next.drop_last() =~= self.buf@.take(i as int));
                lemma_sum_bounds(next);
                assert((i + 1) * (i64::MIN as int) >= -0x1_0000_0000_0000_0000 * 0x8000_0000_0000_0000)
                    by (nonlinear_arith)
                    requires
                        0 <= i + 1 <= 0x1_0000_0000_0000_0000,
                ;
                assert((i + 1) * (i64::MAX as int) <= 0x1_0000_0000_0000_0000 * 0x8000_0000_0000_0000)
                    by (nonlinear_arith)
                    requires
                        0 <= i + 1 <= 0x1_0000_0000_0000_0000,
                ;
            }
            acc = acc + self.buf[i] as i128;
            i = i + 1;
        }
        proof {
            assert(self.buf@.take(n as int) =~= self.buf@);
            let front = self.buf@.subrange(0, self.head as int);
            let back = self.buf@.subrange(self.head as int, n as int);
            assert(front + back =~= self.buf@);
            lemma_sum_concat(front, back);
            lemma_sum_concat(back, front);
            lemma_mean_bounds(self@);
        }
        let q: i128 = acc / (n as i128);
        q as i64
    }
}

} // verus!
