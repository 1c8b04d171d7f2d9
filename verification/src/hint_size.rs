//! An adaptor that gives a producer a size hint of the caller's choosing.

use vstd::prelude::*;
use vstd::std_specs::iter::DoubleEndedIteratorSpec;
use vstd::std_specs::iter::IteratorSpec;
use core::iter::FusedIterator;
use crate::interval::Interval;
use crate::size_hint::{InvalidSizeHint, SizeHint};
use crate::trusted::{reported_hint, then_err};

verus! {

/// What a [`HintSize`] is made of: the wrapped producer and the hint that the
/// adaptor reports in its place.
pub struct HintSizeView<I> {
    /// The wrapped producer.
    pub iterator: I,
    /// The hint that the adaptor reports.
    pub hint: Interval,
}

/// Wraps a producer and reports a chosen size hint in place of its own.
///
/// The adaptor passes the elements of the wrapped producer through
/// unchanged, from either end, and decrements its hint as they are taken.
/// The hint is held against the wrapped producer's own hint once, when the
/// adaptor is made: the two must overlap. Whether the hint is true of the
/// producer remains the business of whoever chose it.
#[derive(Debug, Clone)]
pub struct HintSize<I: Iterator> {
    iterator: I,
    hint: SizeHint,
}

impl<I: Iterator> View for HintSize<I> {
    type V = HintSizeView<I>;

    closed spec fn view(&self) -> HintSizeView<I> {
        HintSizeView { iterator: self.iterator, hint: self.hint@ }
    }
}

impl<I: Iterator> HintSize<I> {
    /// Whether a producer that reported the hint `reported` can be given the
    /// hint `hint`: it can where the two overlap, and the question has no
    /// answer where the reported bounds are out of order.
    pub open spec fn admits(reported: (usize, Option<usize>), hint: Interval) -> Option<bool> {
        if Interval::of(reported).wf() {
            Some(hint.overlaps(Interval::of(reported)))
        } else {
            None
        }
    }

    /// Whether `outcome` is what wrapping `iterator` with the hint `hint`
    /// comes to, given that the producer reported the hint `reported`:
    /// nothing where the reported bounds are out of order, the adaptor where
    /// the two hints overlap, and the error where they do not.
    pub open spec fn decided(
        outcome: Option<Result<Self, InvalidSizeHint>>,
        iterator: I,
        reported: (usize, Option<usize>),
        hint: Interval,
    ) -> bool {
        match Self::admits(reported, hint) {
            Some(true) => outcome matches Some(Ok(adaptor)) && adaptor@ == (HintSizeView {
                iterator,
                hint,
            }),
            Some(false) => outcome == Some(Err::<Self, InvalidSizeHint>(InvalidSizeHint)),
            None => outcome is None,
        }
    }

    /// Whether `adaptor` is what wrapping `iterator` with the hint `hint`
    /// comes to for a caller that wants the adaptor or nothing, given that
    /// the producer reported the hint `reported`.
    pub open spec fn accepted(
        adaptor: Option<Self>,
        iterator: I,
        reported: (usize, Option<usize>),
        hint: Interval,
    ) -> bool {
        if Self::admits(reported, hint) == Some(true) {
            adaptor matches Some(adaptor) && adaptor@ == (HintSizeView { iterator, hint })
        } else {
            adaptor is None
        }
    }

    /// Wraps `iterator` with the hint `hint`, given the hint that the
    /// producer reported.
    ///
    /// Returns `None` where the reported bounds are out of order: the
    /// producer has broken its own contract, and there is nothing to hold
    /// `hint` against. Otherwise returns the adaptor where `hint` overlaps
    /// the reported hint, and the error where it does not.
    pub fn try_with_reported(
        iterator: I,
        reported: (usize, Option<usize>),
        hint: SizeHint,
    ) -> (outcome: Option<Result<Self, InvalidSizeHint>>)
        ensures
            Self::decided(outcome, iterator, reported, hint@),
    {
        match SizeHint::try_from(reported) {
            Ok(wrapped) => match then_err(!SizeHint::overlaps(hint, wrapped), InvalidSizeHint) {
                Ok(()) => Some(Ok(HintSize { iterator, hint })),
                Err(err) => Some(Err(err)),
            },
            Err(_) => None,
        }
    }

    /// Wraps `iterator` with the hint `hint`, held against the hint that
    /// `iterator` reports when asked.
    fn try_new_impl(iterator: I, hint: SizeHint) -> (outcome: Option<Result<Self, InvalidSizeHint>>)
        ensures
            exists|reported: (usize, Option<usize>)|
                Self::decided(outcome, iterator, reported, hint@),
    {
        let reported = reported_hint(&iterator);
        let outcome = Self::try_with_reported(iterator, reported, hint);
        assert(Self::decided(outcome, iterator, reported, hint@));
        outcome
    }

    /// Wraps `iterator` with the hint `(lower, Some(upper))`, held against
    /// the hint that `iterator` reports when asked.
    ///
    /// Bounds out of order are an error whatever the producer reports; it is
    /// not even asked. For bounds in order the outcome is the one that
    /// [`HintSize::try_with_reported`] gives for the reported hint: `None`
    /// where the producer reports bounds that are out of order, the error
    /// where the two hints do not overlap.
    pub fn try_new(iterator: I, lower: usize, upper: usize) -> (outcome: Option<
        Result<Self, InvalidSizeHint>,
    >)
        ensures
            lower > upper ==> outcome == Some(Err::<Self, InvalidSizeHint>(InvalidSizeHint)),
            lower <= upper ==> exists|reported: (usize, Option<usize>)|
                Self::decided(outcome, iterator, reported, Interval::of((lower, Some(upper)))),
    {
        match SizeHint::try_bounded(lower, upper) {
            Ok(hint) => Self::try_new_impl(iterator, hint),
            Err(err) => Some(Err(err)),
        }
    }

    /// Wraps `iterator` with the hint `(lower, Some(upper))`, for callers
    /// that take any failure for a mistake of their own.
    ///
    /// Only a producer that stays exhausted once it is exhausted can be
    /// given an upper bound. Returns the adaptor where the bounds are in
    /// order and the hint that `iterator` reports is in order and overlaps
    /// them, and `None` otherwise.
    pub fn new(iterator: I, lower: usize, upper: usize) -> (adaptor: Option<Self>) where
        I: FusedIterator,

        ensures
            lower > upper ==> adaptor is None,
            lower <= upper ==> exists|reported: (usize, Option<usize>)|
                Self::accepted(adaptor, iterator, reported, Interval::of((lower, Some(upper)))),
    {
        let outcome = Self::try_new(iterator, lower, upper);
        let adaptor = match outcome {
            Some(Ok(adaptor)) => Some(adaptor),
            _ => None,
        };
        proof {
            if lower <= upper {
                let hint = Interval::of((lower, Some(upper)));
                let reported = choose|reported: (usize, Option<usize>)|
                    Self::decided(outcome, iterator, reported, hint);
                assert(Self::accepted(adaptor, iterator, reported, hint));
            }
        }
        adaptor
    }

    /// Wraps `iterator` with the hint `(lower, None)`, held against the hint
    /// that `iterator` reports when asked.
    ///
    /// The outcome is the one that [`HintSize::try_with_reported`] gives for
    /// the reported hint: `None` where the producer reports bounds that are
    /// out of order, the error where `lower` exceeds the reported upper
    /// bound.
    pub fn try_min(iterator: I, lower: usize) -> (outcome: Option<Result<Self, InvalidSizeHint>>)
        ensures
            exists|reported: (usize, Option<usize>)|
                Self::decided(outcome, iterator, reported, Interval::of((lower, None))),
    {
        Self::try_new_impl(iterator, SizeHint::unbounded(lower))
    }

    /// Wraps `iterator` with the hint `(lower, None)`, for callers that take
    /// any failure for a mistake of their own.
    ///
    /// Returns the adaptor where the hint that `iterator` reports is in order
    /// and `lower` does not exceed its upper bound, and `None` otherwise.
    pub fn min(iterator: I, lower: usize) -> (adaptor: Option<Self>)
        ensures
            exists|reported: (usize, Option<usize>)|
                Self::accepted(adaptor, iterator, reported, Interval::of((lower, None))),
    {
        let outcome = Self::try_min(iterator, lower);
        let adaptor = match outcome {
            Some(Ok(adaptor)) => Some(adaptor),
            _ => None,
        };
        proof {
            let hint = Interval::of((lower, None));
            let reported = choose|reported: (usize, Option<usize>)|
                Self::decided(outcome, iterator, reported, hint);
            assert(Self::accepted(adaptor, iterator, reported, hint));
        }
        adaptor
    }

    /// Wraps `iterator` and hides its hint behind the universal one, which
    /// is true of every producer and never changes.
    pub fn hidden(iterator: I) -> (adaptor: Self)
        ensures
            adaptor@ == (HintSizeView { iterator, hint: Interval::universal() }),
    {
        HintSize { iterator, hint: SizeHint::universal() }
    }

    /// The wrapped producer.
    pub fn iterator(&self) -> (iterator: &I)
        ensures
            *iterator == self@.iterator,
    {
        &self.iterator
    }

    /// The hint that the adaptor reports, as a value.
    pub fn hint(&self) -> (hint: SizeHint)
        ensures
            hint@ == self@.hint,
    {
        self.hint
    }

    /// The hint that the adaptor reports, as the pair `(lower, upper)`.
    pub fn size_hint(&self) -> (hint: (usize, Option<usize>))
        ensures
            Interval::of(hint) == self@.hint,
            Interval::of(hint).wf(),
    {
        proof {
            use_type_invariant(self.hint);
        }
        self.hint.into()
    }

    /// Gives the wrapped producer back and drops the hint.
    pub fn into_inner(self) -> (iterator: I)
        ensures
            iterator == self@.iterator,
    {
        self.iterator
    }

    /// Takes the next element of the wrapped producer and hands it on.
    ///
    /// The hint is decremented for an element and keeps its value when the
    /// producer has nothing left; the universal hint stays universal either
    /// way. The wrapped producer moves as its own `next` moves it.
    pub fn next(&mut self) -> (item: Option<I::Item>)
        ensures
            final(self)@.hint == (if item is Some {
                old(self)@.hint.decrement()
            } else {
                old(self)@.hint
            }),
            old(self)@.hint == Interval::universal() ==> final(self)@.hint
                == Interval::universal(),
            final(self)@.iterator.obeys_prophetic_iter_laws() == old(
                self,
            )@.iterator.obeys_prophetic_iter_laws(),
            old(self)@.iterator.obeys_prophetic_iter_laws() ==> {
                &&& final(self)@.iterator.will_return_none() == old(
                    self,
                )@.iterator.will_return_none()
                &&& final(self)@.iterator.decrease() is Some == old(
                    self,
                )@.iterator.decrease() is Some
                &&& if old(self)@.iterator.remaining().len() > 0 {
                    &&& item == Some(old(self)@.iterator.remaining().first())
                    &&& final(self)@.iterator.remaining() == old(
                        self,
                    )@.iterator.remaining().drop_first()
                    &&& final(self)@.iterator.decrease() is Some ==> decreases_to!(
                        old(self)@.iterator.decrease()->0 => final(self)@.iterator.decrease()->0
                    )
                } else {
                    &&& item is None
                    &&& final(self)@.iterator.remaining() == old(self)@.iterator.remaining()
                    &&& final(self)@.iterator.will_return_none()
                }
            },
    {
        match self.iterator.next() {
            Some(item) => {
                self.hint = self.hint.decrement();
                Some(item)
            },
            None => None,
        }
    }
}

impl<I: DoubleEndedIterator> HintSize<I> {
    /// Takes the last element of the wrapped producer and hands it on.
    ///
    /// The hint changes as it does for [`HintSize::next`]: which end an
    /// element is taken from makes no difference to it. The wrapped producer
    /// moves as its own `next_back` moves it.
    pub fn next_back(&mut self) -> (item: Option<I::Item>)
        ensures
            final(self)@.hint == (if item is Some {
                old(self)@.hint.decrement()
            } else {
                old(self)@.hint
            }),
            old(self)@.hint == Interval::universal() ==> final(self)@.hint
                == Interval::universal(),
            final(self)@.iterator.obeys_prophetic_iter_laws() == old(
                self,
            )@.iterator.obeys_prophetic_iter_laws(),
            old(self)@.iterator.obeys_prophetic_iter_laws() ==> {
                &&& final(self)@.iterator.will_return_none() == old(
                    self,
                )@.iterator.will_return_none()
                &&& final(self)@.iterator.decrease() is Some == old(
                    self,
                )@.iterator.decrease() is Some
                &&& if old(self)@.iterator.remaining().len() > 0 {
                    &&& item == Some(old(self)@.iterator.remaining().last())
                    &&& final(self)@.iterator.remaining() == old(
                        self,
                    )@.iterator.remaining().drop_last()
                    &&& final(self)@.iterator.decrease() is Some ==> old(
                        self,
                    )@.iterator.decrease()->0 > final(self)@.iterator.decrease()->0
                } else {
                    &&& item is None
                    &&& final(self)@.iterator.remaining() == old(self)@.iterator.remaining()
                    &&& final(self)@.iterator.will_return_none()
                }
            },
    {
        match self.iterator.next_back() {
            Some(item) => {
                self.hint = self.hint.decrement();
                Some(item)
            },
            None => None,
        }
    }
}

impl<I: Iterator + Default> Default for HintSize<I> {
    /// A default producer behind the universal hint.
    fn default() -> (adaptor: Self)
        ensures
            adaptor@.hint == Interval::universal(),
            call_ensures(I::default, (), adaptor@.iterator),
    {
        HintSize { iterator: I::default(), hint: SizeHint::universal() }
    }
}

} // verus!
