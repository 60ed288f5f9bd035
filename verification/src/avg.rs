//! Fixed-window rolling average over fixed-point readings.
//!
//! The filter keeps the last `L` raw values in a circular buffer together
//! with a running sum, so recording a value and reading the average are
//! both constant-time: the sum is maintained incrementally (subtract the
//! slot being overwritten, add the new value), never recomputed by a
//! traversal.  The average is reported only once the buffer has been
//! filled, so downstream consumers never see an estimate built from a
//! partial window.

use vstd::prelude::*;
use vstd::arithmetic::div_mod::lemma_div_multiples_vanish;

use crate::units::{div_trunc, in_value_range, VALUE_LIMIT, WINDOW_MAX};

verus! {

/// Sum of a sequence of mathematical integers, front to back.
pub open spec fn sum_seq(s: Seq<int>) -> int
    decreases s.len(),
{
    if s.len() == 0 {
        0
    } else {
        s[0] + sum_seq(s.drop_first())
    }
}

/// Appending a value adds it to the sum.
pub proof fn lemma_sum_seq_push(s: Seq<int>, v: int)
    ensures
        sum_seq(s.push(v)) == sum_seq(s) + v,
    decreases s.len(),
{
    if s.len() == 0 {
        assert(s.push(v).drop_first() =~= Seq::<int>::empty());
        assert(sum_seq(s.push(v)) == s.push(v)[0] + sum_seq(s.push(v).drop_first()));
        assert(sum_seq(Seq::<int>::empty()) == 0);
    } else {
        assert(s.push(v).drop_first() =~= s.drop_first().push(v));
        lemma_sum_seq_push(s.drop_first(), v);
        assert(sum_seq(s.push(v)) == s.push(v)[0] + sum_seq(s.push(v).drop_first()));
        assert(s.push(v)[0] == s[0]);
        assert(sum_seq(s) == s[0] + sum_seq(s.drop_first()));
    }
}

/// A sequence of values each bounded by `m` sums to at most `len * m`
/// in magnitude.
pub proof fn lemma_sum_seq_bound(s: Seq<int>, m: int)
    requires
        m >= 0,
        forall|i: int| 0 <= i < s.len() ==> -m <= #[trigger] s[i] <= m,
    ensures
        -(s.len() * m) <= sum_seq(s) <= s.len() * m,
    decreases s.len(),
{
    if s.len() == 0 {
    } else {
        lemma_sum_seq_bound(s.drop_first(), m);
        assert(s.len() * m == (s.len() - 1) * m + m) by (nonlinear_arith);
    }
}

/// A sequence whose elements all equal `v` sums to `len * v`.
pub proof fn lemma_sum_seq_constant(s: Seq<int>, v: int)
    requires
        forall|i: int| 0 <= i < s.len() ==> #[trigger] s[i] == v,
    ensures
        sum_seq(s) == s.len() * v,
    decreases s.len(),
{
    if s.len() == 0 {
    } else {
        lemma_sum_seq_constant(s.drop_first(), v);
        assert(s.len() * v == (s.len() - 1) * v + v) by (nonlinear_arith);
    }
}

/// Fixed-window rolling average calculator: a circular buffer of the last
/// `L` raw values, the next-write index, a running sum, and a flag set
/// permanently once the buffer has been filled for the first time.
pub struct Hysterysiser {
    values: Vec<i64>,
    index: usize,
    sum: i64,
    ready: bool,
    pushed: Ghost<Seq<int>>,
}

impl Hysterysiser {
    /// The window length `L`: how many of the most recent raw values the
    /// average ranges over.
    pub closed spec fn window(self) -> nat {
        self.values@.len()
    }

    /// Every value pushed into the filter so far, oldest first.
    pub closed spec fn pushed(self) -> Seq<int> {
        self.pushed@
    }

    /// How many of the pushed values are still inside the window.
    pub open spec fn filled(self) -> nat {
        if self.pushed().len() >= self.window() {
            self.window()
        } else {
            self.pushed().len()
        }
    }

    /// The raw values the window currently ranges over, oldest first.
    pub open spec fn window_contents(self) -> Seq<int> {
        self.pushed().subrange(
            self.pushed().len() - self.filled(),
            self.pushed().len() as int,
        )
    }

    /// What `average` reports: nothing until the window has been filled
    /// once, afterwards always the full-window mean, truncated toward
    /// zero.
    pub open spec fn spec_average(self) -> Option<int> {
        if self.pushed().len() >= self.window() {
            Some(div_trunc(sum_seq(self.window_contents()), self.window() as int))
        } else {
            None
        }
    }

    /// Structural invariant: the running sum always equals the sum of the
    /// buffer's current contents, and the buffer slots hold exactly the
    /// most recent pushed values.
    pub closed spec fn wf(self) -> bool {
        let l = self.values@.len() as int;
        let n = self.pushed().len() as int;
        &&& 1 <= l <= WINDOW_MAX
        &&& self.index < l
        &&& (forall|i: int| 0 <= i < n ==> in_value_range(#[trigger] self.pushed()[i]))
        &&& self.ready <==> n >= l
        &&& self.sum == sum_seq(self.window_contents())
        &&& if !self.ready {
            &&& self.index == n
            &&& (forall|j: int| 0 <= j < n ==> #[trigger] self.values@[j] == self.pushed()[j])
            &&& (forall|j: int| n <= j < l ==> #[trigger] self.values@[j] == 0)
        } else {
            &&& (forall|j: int|
                self.index <= j < l ==> #[trigger] self.values@[j] == self.pushed()[n - l + (j
                    - self.index)])
            &&& (forall|j: int|
                0 <= j < self.index ==> #[trigger] self.values@[j] == self.pushed()[n - self.index
                    + j])
        }
    }

    /// A fresh filter over a window of `window` raw values; nothing has
    /// been pushed yet.
    pub fn new(window: usize) -> (r: Hysterysiser)
        requires
            1 <= window <= WINDOW_MAX,
        ensures
            r.wf(),
            r.window() == window,
            r.pushed() == Seq::<int>::empty(),
    {
        let mut values: Vec<i64> = Vec::new();
        let mut i: usize = 0;
        while i < window
            invariant
                i <= window,
                values@.len() == i,
                forall|j: int| 0 <= j < i ==> #[trigger] values@[j] == 0,
            decreases window - i,
        {
            values.push(0);
            i = i + 1;
        }
        let r = Hysterysiser { values, index: 0, sum: 0, ready: false, pushed: Ghost(Seq::empty()) };
        proof {
            assert(r.window_contents() =~= Seq::<int>::empty());
        }
        r
    }

    /// Record one new raw sample: overwrite the oldest slot, keep the
    /// running sum in step, and advance the write index.
    pub fn push(&mut self, value: i64)
        requires
            old(self).wf(),
            in_value_range(value as int),
        ensures
            final(self).wf(),
            final(self).window() == old(self).window(),
            final(self).pushed() == old(self).pushed().push(value as int),
    {
        let ghost fl = old(self).filled() as int;
        proof {
            lemma_sum_seq_bound(old(self).window_contents(), VALUE_LIMIT as int);
            assert(fl * VALUE_LIMIT <= WINDOW_MAX * VALUE_LIMIT) by (nonlinear_arith)
                requires
                    0 <= fl <= WINDOW_MAX,
            ;
        }
        let l = self.values.len();
        let outgoing = self.values[self.index];
        proof {
            if old(self).ready {
                assert(outgoing == old(self).window_contents()[0]);
            } else {
                assert(outgoing == 0);
            }
            if old(self).ready {
                lemma_sum_seq_bound(
                    old(self).window_contents().drop_first(),
                    VALUE_LIMIT as int,
                );
                assert((fl - 1) * VALUE_LIMIT <= WINDOW_MAX * VALUE_LIMIT) by (nonlinear_arith)
                    requires
                        1 <= fl <= WINDOW_MAX,
                ;
                assert(sum_seq(old(self).window_contents()) == old(self).window_contents()[0]
                    + sum_seq(old(self).window_contents().drop_first()));
            }
        }
        let partial = self.sum - outgoing;
        let new_sum = partial + value;
        self.values[self.index] = value;
        self.sum = new_sum;
        if !self.ready && self.index == l - 1 {
            self.ready = true;
        }
        let ghost old_pushed = self.pushed@;
        proof {
            self.pushed@ = self.pushed@.push(value as int);
        }
        self.index = if self.index + 1 == l {
            0
        } else {
            self.index + 1
        };
        proof {
            let s = *self;
            let o = *old(self);
            let n = old_pushed.len() as int;
            let li = l as int;
            assert(s.pushed() =~= old_pushed.push(value as int));
            if !o.ready {
                // the buffer was still filling: the window simply grows.
                assert(s.window_contents() =~= o.window_contents().push(value as int));
                lemma_sum_seq_push(o.window_contents(), value as int);
            } else {
                // steady state: the oldest value leaves, the new one enters.
                assert(o.window_contents().len() == li);
                assert(s.window_contents() =~= o.window_contents().drop_first().push(
                    value as int,
                ));
                lemma_sum_seq_push(o.window_contents().drop_first(), value as int);
            }
            assert(s.wf());
        }
    }

    /// The current rolling average, absent until `window()` raw values
    /// have been seen, afterwards always the full-window mean.
    pub fn average(&self) -> (r: Option<i64>)
        requires
            self.wf(),
        ensures
            r is Some <==> self.pushed().len() >= self.window(),
            r matches Some(v) ==> v as int == div_trunc(
                sum_seq(self.window_contents()),
                self.window() as int,
            ),
            r matches Some(v) ==> in_value_range(v as int),
    {
        if !self.ready {
            return None;
        }
        proof {
            lemma_sum_seq_bound(self.window_contents(), VALUE_LIMIT as int);
            assert(self.filled() * VALUE_LIMIT <= WINDOW_MAX * VALUE_LIMIT) by (nonlinear_arith)
                requires
                    0 <= self.filled() <= WINDOW_MAX,
            ;
            let s = sum_seq(self.window_contents());
            let w = self.window() as int;
            assert(-VALUE_LIMIT <= div_trunc(s, w) <= VALUE_LIMIT) by {
                lemma_div_trunc_bound(s, w, VALUE_LIMIT as int);
            }
        }
        Some(crate::units::div_trunc_i64(self.sum, self.values.len() as i64))
    }
}

/// If `|a| <= w * m` with `w >= 1`, truncating division by `w` lands in
/// `[-m, m]`.
proof fn lemma_div_trunc_bound(a: int, w: int, m: int)
    requires
        w >= 1,
        m >= 0,
        -(w * m) <= a <= w * m,
    ensures
        -m <= div_trunc(a, w) <= m,
{
    if a >= 0 {
        assert(0 <= a / w <= m) by (nonlinear_arith)
            requires
                w >= 1,
                m >= 0,
                0 <= a <= w * m,
        ;
    } else {
        assert(0 <= (-a) / w <= m) by (nonlinear_arith)
            requires
                w >= 1,
                m >= 0,
                0 <= -a <= w * m,
        ;
    }
}

/// Pushing the same value `L` times in a row yields an average equal to
/// that value: once the last `L` pushed values all equal `v`, the
/// full-window mean is exactly `v`.
pub proof fn lemma_constant_window_average(f: Hysterysiser, v: int)
    requires
        f.pushed().len() >= f.window(),
        f.window() >= 1,
        forall|i: int|
            f.pushed().len() - f.window() <= i < f.pushed().len() ==> #[trigger] f.pushed()[i]
                == v,
    ensures
        f.spec_average() == Some(v),
{
    let w = f.window() as int;
    assert(forall|i: int|
        0 <= i < f.window_contents().len() ==> #[trigger] f.window_contents()[i] == v);
    lemma_sum_seq_constant(f.window_contents(), v);
    assert(sum_seq(f.window_contents()) == w * v);
    if v >= 0 {
        lemma_div_multiples_vanish(v, w);
        assert(div_trunc(w * v, w) == v);
    } else {
        assert(-(w * v) == w * (-v)) by (nonlinear_arith);
        lemma_div_multiples_vanish(-v, w);
        assert(div_trunc(w * v, w) == -((w * (-v)) / w));
    }
}

} // verus!
