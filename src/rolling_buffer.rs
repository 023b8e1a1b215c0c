//! A fixed-capacity window of the most recent observations.

use std::collections::VecDeque;
use vstd::prelude::*;

verus! {

/// The last `n` items of `s`, or all of `s` where it holds no more than `n`.
pub open spec fn last_n<T>(s: Seq<T>, n: nat) -> Seq<T> {
    if s.len() > n {
        s.subrange(s.len() - n, s.len() as int)
    } else {
        s
    }
}

/// Sum of a sequence of integers, as a mathematical integer.
pub open spec fn seq_sum(s: Seq<i64>) -> int
    decreases s.len(),
{
    if s.len() == 0 {
        0
    } else {
        seq_sum(s.drop_last()) + s.last()
    }
}

/// Keeping the last `n` items before pushing does not change the last `n`
/// items after pushing.
pub proof fn lemma_last_n_push<T>(s: Seq<T>, v: T, n: nat)
    requires
        n > 0,
    ensures
        last_n(last_n(s, n).push(v), n) == last_n(s.push(v), n),
{
    assert(last_n(last_n(s, n).push(v), n) =~= last_n(s.push(v), n));
}

/// The sum of a prefix grows by the next item.
pub proof fn lemma_seq_sum_prefix(s: Seq<i64>, i: int)
    requires
        0 <= i < s.len(),
    ensures
        seq_sum(s.subrange(0, i + 1)) == seq_sum(s.subrange(0, i)) + s[i],
{
    assert(s.subrange(0, i + 1).drop_last() =~= s.subrange(0, i));
}

/// The sum of `n` values of type `i64` lies between `n` times the least and
/// `n` times the greatest `i64`.
pub proof fn lemma_seq_sum_bounds(s: Seq<i64>)
    ensures
        s.len() * (i64::MIN as int) <= seq_sum(s) <= s.len() * (i64::MAX as int),
    decreases s.len(),
{
    if s.len() > 0 {
        lemma_seq_sum_bounds(s.drop_last());
        assert(s.len() * (i64::MIN as int) == (s.len() - 1) * (i64::MIN as int) + (i64::MIN as int))
            by (nonlinear_arith);
        assert(s.len() * (i64::MAX as int) == (s.len() - 1) * (i64::MAX as int) + (i64::MAX as int))
            by (nonlinear_arith);
    }
}

/// Configuration rejected at construction.
#[derive(Clone, Copy, Debug, PartialEq, Eq, Structural)]
pub enum ConfigError {
    /// The period (window capacity) was zero.
    ZeroPeriod,
}

/// Up to `capacity` observations in arrival order; pushing past the capacity
/// evicts the oldest.
pub struct RollingBuffer<T> {
    capacity: usize,
    items: VecDeque<T>,
}

impl<T> View for RollingBuffer<T> {
    type V = Seq<T>;

    closed spec fn view(&self) -> Seq<T> {
        self.items@
    }
}

impl<T: Copy> RollingBuffer<T> {
    /// The capacity is positive and never exceeded.
    pub closed spec fn wf(&self) -> bool {
        &&& self.capacity > 0
        &&& self.items@.len() <= self.capacity
    }

    pub closed spec fn capacity_spec(&self) -> nat {
        self.capacity as nat
    }

    /// An empty buffer holding at most `capacity` items; a zero capacity is a
    /// configuration error.
    pub fn new(capacity: usize) -> (r: Result<Self, ConfigError>)
        ensures
            capacity == 0 <==> r is Err,
            r is Err ==> r->Err_0 == ConfigError::ZeroPeriod,
            r is Ok ==> {
                &&& r->Ok_0.wf()
                &&& r->Ok_0@ == Seq::<T>::empty()
                &&& r->Ok_0.capacity_spec() == capacity
            },
    {
        if capacity == 0 {
            Err(ConfigError::ZeroPeriod)
        } else {
            Ok(RollingBuffer { capacity, items: VecDeque::with_capacity(capacity) })
        }
    }

    pub fn capacity(&self) -> (r: usize)
        ensures
            r == self.capacity_spec(),
    {
        self.capacity
    }

    pub fn len(&self) -> (r: usize)
        ensures
            r == self@.len(),
    {
        self.items.len()
    }

    /// Whether the buffer holds `capacity` items.
    pub fn is_full(&self) -> (r: bool)
        requires
            self.wf(),
        ensures
            r == (self@.len() == self.capacity_spec()),
    {
        self.items.len() == self.capacity
    }

    /// Appends `value`, evicting the oldest item where the buffer was full.
    pub fn push(&mut self, value: T)
        requires
            old(self).wf(),
        ensures
            final(self).wf(),
            final(self).capacity_spec() == old(self).capacity_spec(),
            final(self)@ == last_n(old(self)@.push(value), old(self).capacity_spec()),
    {
        if self.items.len() >= self.capacity {
            self.items.pop_front();
        }
        self.items.push_back(value);
        assert(self.items@ =~= last_n(old(self)@.push(value), old(self).capacity_spec()));
    }

    /// Removes every item; the capacity stays.
    pub fn clear(&mut self)
        requires
            old(self).wf(),
        ensures
            final(self).wf(),
            final(self).capacity_spec() == old(self).capacity_spec(),
            final(self)@ == Seq::<T>::empty(),
    {
        self.items.clear();
    }

    /// The item at `i`, counting from the oldest.
    pub fn get(&self, i: usize) -> (r: T)
        requires
            i < self@.len(),
        ensures
            r == self@[i as int],
    {
        self.items[i]
    }

    /// The items, oldest first.
    pub fn to_vec(&self) -> (r: Vec<T>)
        ensures
            r@ == self@,
    {
        let mut out: Vec<T> = Vec::new();
        let n: usize = self.items.len();
        let mut i: usize = 0;
        while i < n
            invariant
                n == self@.len(),
                i <= n,
                out@ == self@.subrange(0, i as int),
            decreases n - i,
        {
            out.push(self.items[i]);
            i = i + 1;
            assert(out@ =~= self@.subrange(0, i as int));
        }
        assert(out@ =~= self@);
        out
    }
}

impl RollingBuffer<i64> {
    /// Exact sum of the items.
    pub fn sum(&self) -> (r: i128)
        ensures
            r == seq_sum(self@),
    {
        let n: usize = self.items.len();
        let mut total: i128 = 0;
        let mut i: usize = 0;
        while i < n
            invariant
                n == self@.len(),
                i <= n,
                total == seq_sum(self@.subrange(0, i as int)),
            decreases n - i,
        {
            proof {
                lemma_seq_sum_prefix(self@, i as int);
                lemma_seq_sum_bounds(self@.subrange(0, i as int + 1));
                let k = i as int + 1;
                assert(k <= usize::MAX);
                assert(k * (i64::MIN as int) >= i128::MIN) by (nonlinear_arith)
                    requires 0 < k <= 0xffff_ffff_ffff_ffff;
                assert(k * (i64::MAX as int) <= i128::MAX) by (nonlinear_arith)
                    requires 0 < k <= 0xffff_ffff_ffff_ffff;
            }
            total = total + self.items[i] as i128;
            i = i + 1;
        }
        assert(self@.subrange(0, n as int) =~= self@);
        total
    }
}

} // verus!
