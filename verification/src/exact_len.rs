//! An adaptor that gives a producer an exact remaining length.

use vstd::prelude::*;
use vstd::std_specs::iter::DoubleEndedIteratorSpec;
use vstd::std_specs::iter::IteratorSpec;
use core::iter::FusedIterator;
use crate::interval::{pred, Interval};
use crate::size_hint::{InvalidSizeHint, SizeHint};
use crate::trusted::{reported_hint, then_err};

verus! {

/// What an [`ExactLen`] is made of: the wrapped producer and the number of
/// elements that the adaptor says are left.
pub struct ExactLenView<I> {
    /// The wrapped producer.
    pub iterator: I,
    /// The declared number of remaining elements.
    pub len: nat,
}

/// Wraps a producer and declares how many elements it has left.
///
/// The adaptor passes the elements of the wrapped producer through
/// unchanged, from either end, and counts down as they are taken. Its hint
/// is always `(len, Some(len))`. The count is held against the wrapped
/// producer's own hint once, when the adaptor is made; whether it is the true
/// count remains the business of whoever declared it.
#[derive(Debug, Clone)]
pub struct ExactLen<I: Iterator> {
    iterator: I,
    len: usize,
}

impl<I: Iterator> View for ExactLen<I> {
    type V = ExactLenView<I>;

    closed spec fn view(&self) -> ExactLenView<I> {
        ExactLenView { iterator: self.iterator, len: self.len as nat }
    }
}

impl<I: Iterator> ExactLen<I> {
    /// Whether a producer that reported the hint `reported` can be given the
    /// count `len`: it can where `len` lies within the reported bounds, and
    /// the question has no answer where those bounds are out of order.
    pub open spec fn admits(reported: (usize, Option<usize>), len: usize) -> Option<bool> {
        if Interval::of(reported).wf() {
            Some(Interval::of(reported).contains(len as nat))
        } else {
            None
        }
    }

    /// Whether `outcome` is what wrapping `iterator` with the count `len`
    /// comes to, given that the producer reported the hint `reported`:
    /// nothing where the reported bounds are out of order, the adaptor where
    /// `len` lies within them, and the error where it does not.
    pub open spec fn decided(
        outcome: Option<Result<Self, InvalidSizeHint>>,
        iterator: I,
        reported: (usize, Option<usize>),
        len: usize,
    ) -> bool {
        match Self::admits(reported, len) {
            Some(true) => outcome matches Some(Ok(adaptor)) && adaptor@ == (ExactLenView {
                iterator,
                len: len as nat,
            }),
            Some(false) => outcome == Some(Err::<Self, InvalidSizeHint>(InvalidSizeHint)),
            None => outcome is None,
        }
    }

    /// Whether `adaptor` is what wrapping `iterator` with the count `len`
    /// comes to for a caller that wants the adaptor or nothing, given that
    /// the producer reported the hint `reported`.
    pub open spec fn accepted(
        adaptor: Option<Self>,
        iterator: I,
        reported: (usize, Option<usize>),
        len: usize,
    ) -> bool {
        if Self::admits(reported, len) == Some(true) {
            adaptor matches Some(adaptor) && adaptor@ == (ExactLenView { iterator, len: len as nat })
        } else {
            adaptor is None
        }
    }
}

impl<I: Iterator + FusedIterator> ExactLen<I> {
    /// Wraps `iterator` with the count `len`, given the hint that the
    /// producer reported.
    ///
    /// Returns `None` where the reported bounds are out of order: the
    /// producer has broken its own contract, and there is nothing to hold
    /// `len` against. Otherwise returns the adaptor where `len` lies within
    /// the reported bounds, and the error where it does not.
    pub fn try_with_reported(
        iterator: I,
        reported: (usize, Option<usize>),
        len: usize,
    ) -> (outcome: Option<Result<Self, InvalidSizeHint>>)
        ensures
            Self::decided(outcome, iterator, reported, len),
    {
        match SizeHint::try_from(reported) {
            Ok(wrapped) => match then_err(!wrapped.contains(&len), InvalidSizeHint) {
                Ok(()) => Some(Ok(ExactLen { iterator, len })),
                Err(err) => Some(Err(err)),
            },
            Err(_) => None,
        }
    }

    /// Wraps `iterator` with the count `len`, held against the hint that
    /// `iterator` reports when asked.
    ///
    /// The outcome is the one that [`ExactLen::try_with_reported`] gives for
    /// that hint: `None` where the producer reports bounds that are out of
    /// order, the error where `len` lies outside them.
    pub fn try_new(iterator: I, len: usize) -> (outcome: Option<Result<Self, InvalidSizeHint>>)
        ensures
            exists|reported: (usize, Option<usize>)|
                Self::decided(outcome, iterator, reported, len),
    {
        let reported = reported_hint(&iterator);
        let outcome = Self::try_with_reported(iterator, reported, len);
        assert(Self::decided(outcome, iterator, reported, len));
        outcome
    }

    /// Wraps `iterator` with the count `len`, for callers that take any
    /// failure for a mistake of their own.
    ///
    /// Returns the adaptor where the hint that `iterator` reports is in order
    /// and holds `len`, and `None` otherwise.
    pub fn new(iterator: I, len: usize) -> (adaptor: Option<Self>)
        ensures
            exists|reported: (usize, Option<usize>)|
                Self::accepted(adaptor, iterator, reported, len),
    {
        let outcome = Self::try_new(iterator, len);
        let adaptor = match outcome {
            Some(Ok(adaptor)) => Some(adaptor),
            _ => None,
        };
        proof {
            let reported = choose|reported: (usize, Option<usize>)|
                Self::decided(outcome, iterator, reported, len);
            assert(Self::accepted(adaptor, iterator, reported, len));
        }
        adaptor
    }
}

impl<I: Iterator> ExactLen<I> {
    /// The wrapped producer.
    pub fn iterator(&self) -> (iterator: &I)
        ensures
            *iterator == self@.iterator,
    {
        &self.iterator
    }

    /// The number of elements that the adaptor says are left.
    pub fn len(&self) -> (len: usize)
        ensures
            len as nat == self@.len,
    {
        self.len
    }

    /// The hint of the adaptor: exactly the declared count.
    pub fn size_hint(&self) -> (hint: (usize, Option<usize>))
        ensures
            hint.0 as nat == self@.len,
            hint.1 == Some(hint.0),
    {
        SizeHint::exact(self.len).into()
    }

    /// Gives the wrapped producer back and drops the count.
    pub fn into_inner(self) -> (iterator: I)
        ensures
            iterator == self@.iterator,
    {
        self.iterator
    }

    /// Takes the next element of the wrapped producer and hands it on.
    ///
    /// The count goes down by one for an element, staying at zero once it is
    /// there, and keeps its value when the producer has nothing left. The
    /// wrapped producer moves as its own `next` moves it.
    pub fn next(&mut self) -> (item: Option<I::Item>)
        ensures
            final(self)@.len == (if item is Some {
                pred(old(self)@.len)
            } else {
                old(self)@.len
            }),
            final(self)@.iterator.obeys_prophetic_iter_laws() == old(
                self,
            )@.iterator.obeys_prophetic_iter_laws(),
            old(self)@.iterator.obeys_prophetic_iter_laws() ==> {
                &&& final(self)@.iterator.will_return_none() == old(
                    self,
                )@.iterator.will_return_none()
                &&& final(self)@.iterator.decrease() is Some == old(
                    self,
                )@.iterator.decrease() is Some
                &&& if old(self)@.iterator.remaining().len() > 0 {
                    &&& item == Some(old(self)@.iterator.remaining().first())
                    &&& final(self)@.iterator.remaining() == old(
                        self,
                    )@.iterator.remaining().drop_first()
                    &&& final(self)@.iterator.decrease() is Some ==> decreases_to!(
                        old(self)@.iterator.decrease()->0 => final(self)@.iterator.decrease()->0
                    )
                } else {
                    &&& item is None
                    &&& final(self)@.iterator.remaining() == old(self)@.iterator.remaining()
                    &&& final(self)@.iterator.will_return_none()
                }
            },
    {
        match self.iterator.next() {
            Some(item) => {
                self.len = self.len.saturating_sub(1);
                Some(item)
            },
            None => None,
        }
    }
}

impl<I: DoubleEndedIterator> ExactLen<I> {
    /// Takes the last element of the wrapped producer and hands it on.
    ///
    /// The count goes down as it does for [`ExactLen::next`]: which end an
    /// element is taken from makes no difference to it. The wrapped producer
    /// moves as its own `next_back` moves it.
    pub fn next_back(&mut self) -> (item: Option<I::Item>)
        ensures
            final(self)@.len == (if item is Some {
                pred(old(self)@.len)
            } else {
                old(self)@.len
            }),
            final(self)@.iterator.obeys_prophetic_iter_laws() == old(
                self,
            )@.iterator.obeys_prophetic_iter_laws(),
            old(self)@.iterator.obeys_prophetic_iter_laws() ==> {
                &&& final(self)@.iterator.will_return_none() == old(
                    self,
                )@.iterator.will_return_none()
                &&& final(self)@.iterator.decrease() is Some == old(
                    self,
                )@.iterator.decrease() is Some
                &&& if old(self)@.iterator.remaining().len() > 0 {
                    &&& item == Some(old(self)@.iterator.remaining().last())
                    &&& final(self)@.iterator.remaining() == old(
                        self,
                    )@.iterator.remaining().drop_last()
                    &&& final(self)@.iterator.decrease() is Some ==> old(
                        self,
                    )@.iterator.decrease()->0 > final(self)@.iterator.decrease()->0
                } else {
                    &&& item is None
                    &&& final(self)@.iterator.remaining() == old(self)@.iterator.remaining()
                    &&& final(self)@.iterator.will_return_none()
                }
            },
    {
        match self.iterator.next_back() {
            Some(item) => {
                self.len = self.len.saturating_sub(1);
                Some(item)
            },
            None => None,
        }
    }
}

} // verus!
