//! The size hint as a value: a lower bound and an optional upper bound on the
//! number of elements that a producer has left.

use vstd::prelude::*;
use vstd::std_specs::cmp::PartialEqSpecImpl;
use vstd::std_specs::convert::FromSpecImpl;
use vstd::std_specs::convert::TryFromSpecImpl;
use core::ops::{Bound, Range, RangeBounds, RangeFrom, RangeFull, RangeInclusive, RangeTo, RangeToInclusive};
use crate::interval::Interval;
use crate::trusted::{inclusive_end, inclusive_start, range_end, range_start};

verus! {

/// `core::ops::RangeFrom`, the range `start..`, read as the standard library
/// declares it: one public field, `start`.
#[verifier::external_type_specification]
pub struct ExRangeFrom<Idx>(RangeFrom<Idx>);

/// `core::ops::RangeTo`, the range `..end`, read as the standard library
/// declares it: one public field, `end`.
#[verifier::external_type_specification]
pub struct ExRangeTo<Idx>(RangeTo<Idx>);

/// `core::ops::RangeToInclusive`, the range `..=end`, read as the standard
/// library declares it: one public field, `end`.
#[verifier::external_type_specification]
pub struct ExRangeToInclusive<Idx>(RangeToInclusive<Idx>);

/// `core::ops::RangeFull`, the range `..`, which has no fields.
#[verifier::external_type_specification]
pub struct ExRangeFull(RangeFull);

/// `core::ops::Bound`, an end of a range, read as the standard library
/// declares it: included, excluded or unbounded.
#[verifier::external_type_specification]
pub struct ExBound<T>(Bound<T>);

/// The error of a size hint whose lower bound exceeds its upper bound, or
/// that contradicts the hint it was held against.
#[derive(Debug, Clone, Copy, PartialEq, Eq, Structural)]
pub struct InvalidSizeHint;

/// A size hint: at least `lower` elements remain and, where `upper` is
/// present, at most `upper`.
///
/// The bounds are always in order. They can be read, through [`SizeHint::lower`]
/// and [`SizeHint::upper`], but not changed: every operation returns a new
/// value.
#[derive(Debug, Clone, Copy, PartialEq, Eq, Structural, Hash)]
pub struct SizeHint {
    lower: usize,
    upper: Option<usize>,
}

impl View for SizeHint {
    type V = Interval;

    /// The interval of numbers that the hint allows.
    open spec fn view(&self) -> Interval {
        Interval::of(self.bounds())
    }
}

impl SizeHint {
    /// The bounds as the plain pair that iterators report.
    pub closed spec fn bounds(self) -> (usize, Option<usize>) {
        (self.lower, self.upper)
    }

    /// The hint that has the given bounds.
    pub closed spec fn with_bounds(bounds: (usize, Option<usize>)) -> SizeHint {
        SizeHint { lower: bounds.0, upper: bounds.1 }
    }

    /// Every size hint that executable code can hold is well formed.
    #[verifier::type_invariant]
    pub open spec fn valid(self) -> bool {
        self@.wf()
    }

    /// The universal hint `(0, None)`: always true, it conveys nothing.
    pub fn universal() -> (hint: Self)
        ensures
            hint.bounds() == (0usize, None::<usize>),
            hint@ == Interval::universal(),
    {
        SizeHint { lower: 0, upper: None }
    }

    /// The hint `(0, Some(0))`: nothing remains.
    pub fn zero() -> (hint: Self)
        ensures
            hint.bounds() == (0usize, Some(0usize)),
            hint@ == Interval::zero(),
    {
        SizeHint { lower: 0, upper: Some(0) }
    }

    /// The hint with the given bounds, which must be in order.
    pub fn new(lower: usize, upper: Option<usize>) -> (hint: Self)
        requires
            Interval::of((lower, upper)).wf(),
        ensures
            hint.bounds() == (lower, upper),
    {
        SizeHint { lower, upper }
    }

    /// The hint `(lower, Some(upper))`, for bounds that are in order.
    pub fn bounded(lower: usize, upper: usize) -> (hint: Self)
        requires
            lower <= upper,
        ensures
            hint.bounds() == (lower, Some(upper)),
    {
        SizeHint { lower, upper: Some(upper) }
    }

    /// The hint `(lower, Some(upper))` when the bounds are in order, and the
    /// error when `lower` exceeds `upper`.
    pub fn try_bounded(lower: usize, upper: usize) -> (r: Result<Self, InvalidSizeHint>)
        ensures
            r is Ok <==> lower <= upper,
            r matches Ok(hint) ==> hint.bounds() == (lower, Some(upper)),
            r matches Err(err) ==> err == InvalidSizeHint,
    {
        match lower > upper {
            true => Err(InvalidSizeHint),
            false => Ok(SizeHint { lower, upper: Some(upper) }),
        }
    }

    /// The hint `(lower, None)`.
    pub fn unbounded(lower: usize) -> (hint: Self)
        ensures
            hint.bounds() == (lower, None::<usize>),
    {
        SizeHint { lower, upper: None }
    }

    /// The hint `(len, Some(len))`.
    pub fn exact(len: usize) -> (hint: Self)
        ensures
            hint.bounds() == (len, Some(len)),
            hint@ == Interval::exact(len as nat),
    {
        SizeHint { lower: len, upper: Some(len) }
    }

    /// The hint `(0, Some(upper))`.
    pub fn at_most(upper: usize) -> (hint: Self)
        ensures
            hint.bounds() == (0usize, Some(upper)),
    {
        SizeHint { lower: 0, upper: Some(upper) }
    }

    /// The lower bound.
    pub fn lower(&self) -> (lower: usize)
        ensures
            lower == self.bounds().0,
    {
        self.lower
    }

    /// The upper bound, if there is one.
    pub fn upper(&self) -> (upper: Option<usize>)
        ensures
            upper == self.bounds().1,
    {
        self.upper
    }

    /// The hint as the pair `(lower, upper)`.
    pub fn size_hint(&self) -> (bounds: (usize, Option<usize>))
        ensures
            bounds == self.bounds(),
            Interval::of(bounds).wf(),
    {
        proof {
            use_type_invariant(self);
        }
        (self.lower, self.upper)
    }

    /// The hint after one element has been taken: each bound is lowered by
    /// one, and a bound that is zero stays zero. The bounds stay in order
    /// ([`Interval::law_decrement_keeps_order`]), and the hints `(0, Some(0))`
    /// and `(0, None)` come back as they are
    /// ([`Interval::law_zero_stays_zero`],
    /// [`Interval::law_universal_stays_universal`]).
    pub fn decrement(self) -> (hint: Self)
        ensures
            hint@ == self@.decrement(),
    {
        proof {
            use_type_invariant(self);
        }
        SizeHint {
            lower: self.lower.saturating_sub(1),
            upper: match self.upper {
                Some(upper) => Some(upper.saturating_sub(1)),
                None => None,
            },
        }
    }

    /// Whether some number of remaining elements would satisfy both hints.
    /// The answer is the same whichever of the two hints is asked
    /// ([`Interval::law_overlaps_commutes`]).
    pub fn overlaps(self, other: Self) -> (b: bool)
        ensures
            b == self@.overlaps(other@),
            b == self@.bounds_meet(other@),
    {
        proof {
            use_type_invariant(self);
            use_type_invariant(other);
            self@.lemma_overlaps_by_bounds(other@);
        }
        match ((self.lower, self.upper), (other.lower, other.upper)) {
            ((a_lower, Some(a_upper)), (b_lower, Some(b_upper))) => a_lower <= b_upper && b_lower
                <= a_upper,
            ((_, Some(a_upper)), (b_lower, None)) => a_upper >= b_lower,
            ((a_lower, None), (_, Some(b_upper))) => b_upper >= a_lower,
            ((_, None), (_, None)) => true,
        }
    }

    /// Whether no number of remaining elements would satisfy both hints: the
    /// opposite of [`SizeHint::overlaps`].
    pub fn disjoint(self, other: Self) -> (b: bool)
        ensures
            b == self@.disjoint(other@),
            b == !self@.bounds_meet(other@),
    {
        !self.overlaps(other)
    }

    /// Whether every number of remaining elements that satisfies this hint
    /// satisfies `other` too. Every hint is a subset of itself
    /// ([`Interval::law_subset_reflexive`]), and a hint without an upper
    /// bound is never a subset of one that has an upper bound
    /// ([`Interval::law_unbounded_not_subset_of_bounded`]).
    pub fn is_subset_of(self, other: Self) -> (b: bool)
        ensures
            b == self@.subset_of(other@),
            b == self@.bounds_within(other@),
    {
        proof {
            use_type_invariant(self);
            self@.lemma_subset_by_bounds(other@);
        }
        match ((self.lower, self.upper), (other.lower, other.upper)) {
            ((a_low, Some(a_up)), (b_low, Some(b_up))) => a_low >= b_low && a_up <= b_up,
            ((a_low, _), (b_low, None)) => a_low >= b_low,
            ((_, None), (_, Some(_))) => false,
        }
    }

    /// Whether `count` remaining elements would satisfy the hint.
    pub fn contains(&self, count: &usize) -> (b: bool)
        ensures
            b == self@.contains(*count as nat),
    {
        self.lower <= *count && match self.upper {
            Some(upper) => *count <= upper,
            None => true,
        }
    }

    /// The smallest number of elements that the hint allows, as the start of
    /// a range: always included.
    pub fn start_bound(&self) -> (bound: Bound<&usize>)
        ensures
            bound matches Bound::Included(lower) && *lower == self.bounds().0,
    {
        Bound::Included(&self.lower)
    }

    /// The greatest number of elements that the hint allows, as the end of a
    /// range: included where there is an upper bound, and unbounded where
    /// there is none.
    pub fn end_bound(&self) -> (bound: Bound<&usize>)
        ensures
            match self.bounds().1 {
                Some(upper) => bound matches Bound::Included(end) && *end == upper,
                None => bound is Unbounded,
            },
    {
        match &self.upper {
            Some(upper) => Bound::Included(upper),
            None => Bound::Unbounded,
        }
    }

    /// A hint is known by its bounds: two hints with the same bounds, or the
    /// same interval, are the same hint, and [`SizeHint::with_bounds`] gives
    /// the hint back from its bounds.
    pub proof fn lemma_bounds_injective(self, other: Self)
        ensures
            self.bounds() == other.bounds() <==> self == other,
            self@ == other@ <==> self == other,
            SizeHint::with_bounds(self.bounds()) == self,
    {
        if self@ == other@ {
            assert(self.bounds().0 as nat == other.bounds().0 as nat);
            assert(crate::interval::widen(self.bounds().1) == crate::interval::widen(
                other.bounds().1,
            ));
        }
    }
}

impl Default for SizeHint {
    /// The universal hint.
    fn default() -> (hint: Self)
        ensures
            hint.bounds() == (0usize, None::<usize>),
    {
        SizeHint { lower: 0, upper: None }
    }
}

impl TryFrom<(usize, Option<usize>)> for SizeHint {
    type Error = InvalidSizeHint;

    /// The hint with the bounds of the pair, when they are in order.
    fn try_from(hint: (usize, Option<usize>)) -> (r: Result<Self, InvalidSizeHint>)
        ensures
            r is Ok <==> Interval::of(hint).wf(),
            r matches Ok(h) ==> h.bounds() == hint,
    {
        let r = match hint {
            (lower, Some(upper)) => Self::try_bounded(lower, upper),
            (lower, None) => Ok(Self::unbounded(lower)),
        };
        proof {
            if let Ok(h) = r {
                h.lemma_bounds_injective(h);
            }
        }
        r
    }
}

impl TryFromSpecImpl<(usize, Option<usize>)> for SizeHint {
    open spec fn obeys_try_from_spec() -> bool {
        true
    }

    open spec fn try_from_spec(hint: (usize, Option<usize>)) -> Result<Self, InvalidSizeHint> {
        if Interval::of(hint).wf() {
            Ok(SizeHint::with_bounds(hint))
        } else {
            Err(InvalidSizeHint)
        }
    }
}

impl From<SizeHint> for (usize, Option<usize>) {
    /// The bounds of the hint.
    fn from(hint: SizeHint) -> (bounds: Self)
        ensures
            bounds == hint.bounds(),
    {
        (hint.lower, hint.upper)
    }
}

impl FromSpecImpl<SizeHint> for (usize, Option<usize>) {
    open spec fn obeys_from_spec() -> bool {
        true
    }

    open spec fn from_spec(hint: SizeHint) -> Self {
        hint.bounds()
    }
}

impl TryFrom<Range<usize>> for SizeHint {
    type Error = InvalidSizeHint;

    /// The hint from `start` to the last number before `end`; the error for
    /// a range that holds no number.
    fn try_from(range: Range<usize>) -> (r: Result<Self, InvalidSizeHint>)
        ensures
            r is Ok <==> range.start < range.end,
            r matches Ok(h) ==> h.bounds() == (range.start, Some((range.end - 1) as usize)),
    {
        let r = match range.end.checked_sub(1) {
            Some(end) => Self::try_bounded(range.start, end),
            None => Err(InvalidSizeHint),
        };
        proof {
            if let Ok(h) = r {
                h.lemma_bounds_injective(h);
            }
        }
        r
    }
}

impl TryFromSpecImpl<Range<usize>> for SizeHint {
    open spec fn obeys_try_from_spec() -> bool {
        true
    }

    open spec fn try_from_spec(range: Range<usize>) -> Result<Self, InvalidSizeHint> {
        if range.start < range.end {
            Ok(SizeHint::with_bounds((range.start, Some((range.end - 1) as usize))))
        } else {
            Err(InvalidSizeHint)
        }
    }
}

impl TryFrom<RangeInclusive<usize>> for SizeHint {
    type Error = InvalidSizeHint;

    /// The hint from the start of the range to its end, when they are in
    /// order. For a range that iteration has not exhausted these are the
    /// bounds it was made with.
    fn try_from(range: RangeInclusive<usize>) -> (r: Result<Self, InvalidSizeHint>)
        ensures
            r is Ok <==> inclusive_start(range@.start, range@.end, range@.exhausted)
                <= inclusive_end(range@.start, range@.end, range@.exhausted),
            r matches Ok(h) ==> h.bounds() == (
                inclusive_start(range@.start, range@.end, range@.exhausted),
                Some(inclusive_end(range@.start, range@.end, range@.exhausted)),
            ),
            !range@.exhausted ==> (r is Ok <==> range@.start <= range@.end),
            !range@.exhausted ==> (r matches Ok(h) ==> h.bounds() == (
                range@.start,
                Some(range@.end),
            )),
    {
        let start = range_start(&range);
        let end = range_end(&range);
        let r = Self::try_bounded(start, end);
        proof {
            if let Ok(h) = r {
                h.lemma_bounds_injective(h);
            }
        }
        r
    }
}

impl TryFromSpecImpl<RangeInclusive<usize>> for SizeHint {
    open spec fn obeys_try_from_spec() -> bool {
        true
    }

    open spec fn try_from_spec(range: RangeInclusive<usize>) -> Result<Self, InvalidSizeHint> {
        let start = inclusive_start(range@.start, range@.end, range@.exhausted);
        let end = inclusive_end(range@.start, range@.end, range@.exhausted);
        if start <= end {
            Ok(SizeHint::with_bounds((start, Some(end))))
        } else {
            Err(InvalidSizeHint)
        }
    }
}

impl From<RangeFull> for SizeHint {
    /// The universal hint.
    fn from(range: RangeFull) -> (hint: Self)
        ensures
            hint.bounds() == (0usize, None::<usize>),
    {
        let hint = Self::universal();
        proof {
            hint.lemma_bounds_injective(hint);
        }
        hint
    }
}

impl FromSpecImpl<RangeFull> for SizeHint {
    open spec fn obeys_from_spec() -> bool {
        true
    }

    open spec fn from_spec(range: RangeFull) -> Self {
        SizeHint::with_bounds((0, None))
    }
}

impl From<RangeFrom<usize>> for SizeHint {
    /// The hint from `start` on, without an upper bound.
    fn from(range: RangeFrom<usize>) -> (hint: Self)
        ensures
            hint.bounds() == (range.start, None::<usize>),
    {
        SizeHint { lower: range.start, upper: None }
    }
}

impl FromSpecImpl<RangeFrom<usize>> for SizeHint {
    open spec fn obeys_from_spec() -> bool {
        true
    }

    open spec fn from_spec(range: RangeFrom<usize>) -> Self {
        SizeHint::with_bounds((range.start, None))
    }
}

impl TryFrom<RangeTo<usize>> for SizeHint {
    type Error = InvalidSizeHint;

    /// The hint from zero to the last number before `end`; the error for a
    /// range that holds no number.
    fn try_from(range: RangeTo<usize>) -> (r: Result<Self, InvalidSizeHint>)
        ensures
            r is Ok <==> 0 < range.end,
            r matches Ok(h) ==> h.bounds() == (0usize, Some((range.end - 1) as usize)),
    {
        let r = match range.end.checked_sub(1) {
            Some(end) => Self::try_bounded(0, end),
            None => Err(InvalidSizeHint),
        };
        proof {
            if let Ok(h) = r {
                h.lemma_bounds_injective(h);
            }
        }
        r
    }
}

impl TryFromSpecImpl<RangeTo<usize>> for SizeHint {
    open spec fn obeys_try_from_spec() -> bool {
        true
    }

    open spec fn try_from_spec(range: RangeTo<usize>) -> Result<Self, InvalidSizeHint> {
        if 0 < range.end {
            Ok(SizeHint::with_bounds((0, Some((range.end - 1) as usize))))
        } else {
            Err(InvalidSizeHint)
        }
    }
}

impl From<RangeToInclusive<usize>> for SizeHint {
    /// The hint from zero to `end`.
    fn from(range: RangeToInclusive<usize>) -> (hint: Self)
        ensures
            hint.bounds() == (0usize, Some(range.end)),
    {
        SizeHint { lower: 0, upper: Some(range.end) }
    }
}

impl FromSpecImpl<RangeToInclusive<usize>> for SizeHint {
    open spec fn obeys_from_spec() -> bool {
        true
    }

    open spec fn from_spec(range: RangeToInclusive<usize>) -> Self {
        SizeHint::with_bounds((0, Some(range.end)))
    }
}

/// A size hint is a range of possible lengths, with both ends included.
impl RangeBounds<usize> for SizeHint {
    fn start_bound(&self) -> (bound: Bound<&usize>)
        ensures
            bound matches Bound::Included(lower) && *lower == self.bounds().0,
    {
        SizeHint::start_bound(self)
    }

    fn end_bound(&self) -> (bound: Bound<&usize>)
        ensures
            match self.bounds().1 {
                Some(upper) => bound matches Bound::Included(end) && *end == upper,
                None => bound is Unbounded,
            },
    {
        SizeHint::end_bound(self)
    }
}

impl PartialEq<(usize, Option<usize>)> for SizeHint {
    /// Whether the pair holds the bounds of the hint.
    fn eq(&self, other: &(usize, Option<usize>)) -> (b: bool)
    {
        self.lower == other.0 && self.upper == other.1
    }
}

impl PartialEqSpecImpl<(usize, Option<usize>)> for SizeHint {
    open spec fn obeys_eq_spec() -> bool {
        true
    }

    open spec fn eq_spec(&self, other: &(usize, Option<usize>)) -> bool {
        self.bounds() == *other
    }
}

impl PartialEq<SizeHint> for (usize, Option<usize>) {
    /// Whether the pair holds the bounds of the hint.
    fn eq(&self, other: &SizeHint) -> (b: bool)
    {
        self.0 == other.lower && self.1 == other.upper
    }
}

impl PartialEqSpecImpl<SizeHint> for (usize, Option<usize>) {
    open spec fn obeys_eq_spec() -> bool {
        true
    }

    open spec fn eq_spec(&self, other: &SizeHint) -> bool {
        *self == other.bounds()
    }
}

/// What `SizeHint::try_from` makes of a pair.
pub open spec fn pair_to_hint(pair: (usize, Option<usize>)) -> Result<
    SizeHint,
    InvalidSizeHint,
> {
    <SizeHint as vstd::std_specs::convert::TryFromSpec<(usize, Option<usize>)>>::try_from_spec(
        pair,
    )
}

/// What `from` and `into` make of a hint.
pub open spec fn hint_to_pair(hint: SizeHint) -> (usize, Option<usize>) {
    <(usize, Option<usize>) as vstd::std_specs::convert::FromSpec<SizeHint>>::from_spec(hint)
}

/// A hint and the pair of its bounds stand for each other without loss.
/// The pair of a hint converts back to that hint. A pair whose bounds are
/// in order converts to a hint that has exactly that pair for its bounds,
/// and a pair whose bounds are out of order converts to the error.
pub proof fn law_pair_round_trip(hint: SizeHint, pair: (usize, Option<usize>))
    requires
        hint.valid(),
    ensures
        pair_to_hint(hint_to_pair(hint)) == Ok::<SizeHint, InvalidSizeHint>(hint),
        Interval::of(pair).wf() ==> (pair_to_hint(pair) matches Ok(made)
            && made.bounds() == pair && hint_to_pair(made) == pair),
        !Interval::of(pair).wf() ==> pair_to_hint(pair) == Err::<
            SizeHint,
            InvalidSizeHint,
        >(InvalidSizeHint),
{
    hint.lemma_bounds_injective(hint);
}

} // verus!
