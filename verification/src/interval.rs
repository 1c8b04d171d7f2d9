//! The mathematical model of a size hint: an interval of natural numbers
//! whose upper end may be missing.
//!
//! Everything here is ghost. The executable types of this crate state their
//! contracts over [`Interval`], and the relations between intervals are
//! defined by the numbers they contain rather than by case analysis on their
//! bounds; the lemmas of this module connect the two readings.

use vstd::prelude::*;

verus! {

/// The numbers from `lower` up to `upper`, or from `lower` on when there is no
/// upper bound.
pub struct Interval {
    /// The least number of elements that may remain.
    pub lower: nat,
    /// The greatest number of elements that may remain, if one is known.
    pub upper: Option<nat>,
}

/// One less than `n`, and zero for zero.
pub open spec fn pred(n: nat) -> nat {
    if n == 0 {
        0
    } else {
        (n - 1) as nat
    }
}

/// `n` lowered by `k`, and zero where `k` exceeds `n`.
pub open spec fn lowered(n: nat, k: nat) -> nat {
    if n <= k {
        0
    } else {
        (n - k) as nat
    }
}

/// The optional upper bound of a hint as a natural number.
pub open spec fn widen(upper: Option<usize>) -> Option<nat> {
    match upper {
        Some(upper) => Some(upper as nat),
        None => None,
    }
}

impl Interval {
    /// The interval that a pair of machine integers describes.
    pub open spec fn of(bounds: (usize, Option<usize>)) -> Interval {
        Interval { lower: bounds.0 as nat, upper: widen(bounds.1) }
    }

    /// The interval that holds every number: it says nothing.
    pub open spec fn universal() -> Interval {
        Interval { lower: 0, upper: None }
    }

    /// The interval that holds zero alone: nothing remains.
    pub open spec fn zero() -> Interval {
        Interval { lower: 0, upper: Some(0) }
    }

    /// The interval that holds `n` alone.
    pub open spec fn exact(n: nat) -> Interval {
        Interval { lower: n, upper: Some(n) }
    }

    /// An interval is well formed when its bounds are in order, that is, when
    /// it holds at least one number.
    pub open spec fn wf(self) -> bool {
        self.upper matches Some(upper) ==> self.lower <= upper
    }

    /// Whether `n` lies within the bounds.
    pub open spec fn contains(self, n: nat) -> bool {
        &&& self.lower <= n
        &&& self.upper matches Some(upper) ==> n <= upper
    }

    /// Two intervals overlap when some number lies in both.
    pub open spec fn overlaps(self, other: Interval) -> bool {
        exists|n: nat| self.contains(n) && other.contains(n)
    }

    /// Two intervals are disjoint when no number lies in both.
    pub open spec fn disjoint(self, other: Interval) -> bool {
        !self.overlaps(other)
    }

    /// An interval is a subset of another when each of its numbers lies in
    /// the other.
    pub open spec fn subset_of(self, other: Interval) -> bool {
        forall|n: nat| self.contains(n) ==> other.contains(n)
    }

    /// The interval after one element has been taken: each bound goes down by
    /// one and stays at zero once it is there, the one independently of the
    /// other.
    pub open spec fn decrement(self) -> Interval {
        Interval {
            lower: pred(self.lower),
            upper: match self.upper {
                Some(upper) => Some(pred(upper)),
                None => None,
            },
        }
    }

    /// The interval after `k` elements have been taken: `k` decrements, one
    /// after the other.
    pub open spec fn decrement_by(self, k: nat) -> Interval
        decreases k,
    {
        if k == 0 {
            self
        } else {
            self.decrement_by((k - 1) as nat).decrement()
        }
    }

    /// Overlap read off the bounds: neither interval begins after the other
    /// has ended.
    pub open spec fn bounds_meet(self, other: Interval) -> bool {
        &&& other.upper matches Some(upper) ==> self.lower <= upper
        &&& self.upper matches Some(upper) ==> other.lower <= upper
    }

    /// Inclusion read off the bounds: `self` begins no earlier than `other`
    /// and, where `other` ends, ends no later.
    pub open spec fn bounds_within(self, other: Interval) -> bool {
        &&& other.lower <= self.lower
        &&& other.upper matches Some(outer) ==> (self.upper matches Some(inner) && inner <= outer)
    }

    /// For well-formed intervals, overlapping is the same as having bounds
    /// that meet.
    pub proof fn lemma_overlaps_by_bounds(self, other: Interval)
        requires
            self.wf(),
            other.wf(),
        ensures
            self.overlaps(other) <==> self.bounds_meet(other),
    {
        if self.bounds_meet(other) {
            let n = if self.lower <= other.lower {
                other.lower
            } else {
                self.lower
            };
            assert(self.contains(n) && other.contains(n));
        }
    }

    /// For a well-formed interval, being a subset is the same as having
    /// bounds within those of the other.
    pub proof fn lemma_subset_by_bounds(self, other: Interval)
        requires
            self.wf(),
        ensures
            self.subset_of(other) <==> self.bounds_within(other),
    {
        if self.subset_of(other) {
            assert(self.contains(self.lower));
            match (self.upper, other.upper) {
                (Some(inner), Some(outer)) => {
                    assert(self.contains(inner));
                },
                (None, Some(outer)) => {
                    let n = if self.lower <= outer {
                        outer + 1
                    } else {
                        self.lower
                    };
                    assert(self.contains(n));
                },
                _ => {},
            }
        }
    }

    /// After `k` elements each bound has gone down by `k`, or to zero where
    /// it was less than `k`: the lower bound may reach zero while the upper
    /// bound still has room.
    pub proof fn lemma_decrement_by_bounds(self, k: nat)
        ensures
            self.decrement_by(k).lower == lowered(self.lower, k),
            self.decrement_by(k).upper == match self.upper {
                Some(upper) => Some(lowered(upper, k)),
                None => None,
            },
        decreases k,
    {
        if k > 0 {
            self.lemma_decrement_by_bounds((k - 1) as nat);
        }
    }

    /// Taking elements keeps the bounds in order: an interval that holds a
    /// number still holds one after any number of decrements.
    pub proof fn law_decrement_keeps_order(self, k: nat)
        requires
            self.wf(),
        ensures
            self.decrement().wf(),
            self.decrement_by(k).wf(),
    {
        self.lemma_decrement_by_bounds(k);
    }

    /// The numbers of the decremented interval are the predecessors of the
    /// numbers of the interval: where `n` elements may remain before one is
    /// taken, `n - 1` may remain after, and none where none remained.
    pub proof fn law_decrement_takes_predecessors(self, m: nat)
        requires
            self.wf(),
        ensures
            self.decrement().contains(m) <==> exists|n: nat| self.contains(n) && pred(n) == m,
    {
        if self.decrement().contains(m) {
            let n = if self.contains(m + 1) {
                m + 1
            } else {
                0
            };
            assert(self.contains(n) && pred(n) == m);
        }
    }

    /// Decrementing the interval `(0, Some(0))` gives it back, however often
    /// it is done: a bound that has reached zero stays there.
    pub proof fn law_zero_stays_zero(k: nat)
        ensures
            Interval::zero().decrement() == Interval::zero(),
            Interval::zero().decrement_by(k) == Interval::zero(),
    {
        Interval::zero().lemma_decrement_by_bounds(k);
    }

    /// Decrementing the universal interval gives it back, however often it
    /// is done.
    pub proof fn law_universal_stays_universal(k: nat)
        ensures
            Interval::universal().decrement() == Interval::universal(),
            Interval::universal().decrement_by(k) == Interval::universal(),
    {
        Interval::universal().lemma_decrement_by_bounds(k);
    }

    /// Overlapping does not depend on which of the two intervals is asked,
    /// and being disjoint is the opposite of overlapping.
    pub proof fn law_overlaps_commutes(self, other: Interval)
        ensures
            self.overlaps(other) == other.overlaps(self),
            self.disjoint(other) == other.disjoint(self),
            self.disjoint(other) == !self.overlaps(other),
    {
        if self.overlaps(other) {
            let n = choose|n: nat| self.contains(n) && other.contains(n);
            assert(other.contains(n) && self.contains(n));
        }
        if other.overlaps(self) {
            let n = choose|n: nat| other.contains(n) && self.contains(n);
            assert(self.contains(n) && other.contains(n));
        }
    }

    /// Every interval is a subset of itself.
    pub proof fn law_subset_reflexive(self)
        ensures
            self.subset_of(self),
    {
    }

    /// An interval without an upper bound is never a subset of one that has
    /// an upper bound.
    pub proof fn law_unbounded_not_subset_of_bounded(self, other: Interval)
        requires
            self.upper is None,
            other.upper is Some,
        ensures
            !self.subset_of(other),
    {
        self.lemma_subset_by_bounds(other);
    }

    /// Being a subset depends on which of the two intervals is asked: the
    /// interval from four to six is a subset of the interval from three to
    /// ten, and not the other way round.
    pub proof fn law_subset_not_commutative()
        ensures
            exists|a: Interval, b: Interval|
                a.wf() && b.wf() && #[trigger] a.subset_of(b) && !b.subset_of(a),
    {
        let a = Interval { lower: 4, upper: Some(6) };
        let b = Interval { lower: 3, upper: Some(10) };
        a.lemma_subset_by_bounds(b);
        b.lemma_subset_by_bounds(a);
        assert(a.wf() && b.wf() && a.subset_of(b) && !b.subset_of(a));
    }
}

} // verus!
