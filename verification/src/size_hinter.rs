//! The adaptors as methods of every producer.

use vstd::prelude::*;
use core::iter::FusedIterator;
use crate::exact_len::ExactLen;
use crate::hint_size::{HintSize, HintSizeView};
use crate::interval::Interval;
use crate::size_hint::InvalidSizeHint;

verus! {

/// Gives every producer the methods that wrap it in an adaptor of this
/// crate. Each is the constructor of the same meaning, called on the
/// producer.
pub trait SizeHinter: Iterator + Sized {
    /// Wraps this producer with the hint `(lower, Some(upper))`, as
    /// [`HintSize::new`] does.
    fn hint_size(self, lower: usize, upper: usize) -> (adaptor: Option<HintSize<Self>>) where
        Self: FusedIterator,

        ensures
            lower > upper ==> adaptor is None,
            lower <= upper ==> exists|reported: (usize, Option<usize>)|
                HintSize::accepted(adaptor, self, reported, Interval::of((lower, Some(upper)))),
    ;

    /// Wraps this producer with the hint `(lower, None)`, as
    /// [`HintSize::min`] does.
    fn hint_min(self, lower: usize) -> (adaptor: Option<HintSize<Self>>)
        ensures
            exists|reported: (usize, Option<usize>)|
                HintSize::accepted(adaptor, self, reported, Interval::of((lower, None))),
    ;

    /// Wraps this producer and hides its hint behind the universal one, as
    /// [`HintSize::hidden`] does.
    fn hide_size(self) -> (adaptor: HintSize<Self>)
        ensures
            adaptor@ == (HintSizeView { iterator: self, hint: Interval::universal() }),
    ;

    /// Wraps this producer with the exact count `len`, as [`ExactLen::new`]
    /// does.
    fn exact_len(self, len: usize) -> (adaptor: Option<ExactLen<Self>>) where Self: FusedIterator
        ensures
            exists|reported: (usize, Option<usize>)|
                ExactLen::accepted(adaptor, self, reported, len),
    ;

    /// Wraps this producer with the exact count `len`, as
    /// [`ExactLen::try_new`] does.
    fn try_exact_len(self, len: usize) -> (outcome: Option<
        Result<ExactLen<Self>, InvalidSizeHint>,
    >) where Self: FusedIterator
        ensures
            exists|reported: (usize, Option<usize>)|
                ExactLen::decided(outcome, self, reported, len),
    ;
}

impl<I: Iterator> SizeHinter for I {
    fn hint_size(self, lower: usize, upper: usize) -> (adaptor: Option<HintSize<Self>>) where
        Self: FusedIterator,
    {
        HintSize::new(self, lower, upper)
    }

    fn hint_min(self, lower: usize) -> (adaptor: Option<HintSize<Self>>) {
        HintSize::min(self, lower)
    }

    fn hide_size(self) -> (adaptor: HintSize<Self>) {
        HintSize::hidden(self)
    }

    fn exact_len(self, len: usize) -> (adaptor: Option<ExactLen<Self>>) where Self: FusedIterator {
        ExactLen::new(self, len)
    }

    fn try_exact_len(self, len: usize) -> (outcome: Option<
        Result<ExactLen<Self>, InvalidSizeHint>,
    >) where Self: FusedIterator {
        ExactLen::try_new(self, len)
    }
}

} // verus!
