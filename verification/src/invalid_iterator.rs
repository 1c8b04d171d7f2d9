//! A stand-in for a producer that reports an impossible size hint.

use vstd::prelude::*;
use core::marker::PhantomData;
use crate::interval::Interval;

verus! {

/// Reports a size hint whose lower bound exceeds its upper bound, which no
/// honest producer does.
///
/// It serves to see how a consumer of size hints copes with one that is out
/// of order. It produces no element: `T` is only the type of the elements
/// that it stands for.
#[derive(Debug)]
pub struct InvalidIterator<T = ()>(PhantomData<T>);

impl<T> InvalidIterator<T> {
    /// The impossible hint that every [`InvalidIterator`] reports.
    pub open spec fn invalid_size_hint() -> (usize, Option<usize>) {
        (10, Some(5))
    }

    /// A new stand-in. There is nothing to tell one from another: each
    /// reports the same hint.
    pub fn new() -> Self {
        InvalidIterator(PhantomData)
    }

    /// The reported hint: always the same, and always out of order.
    pub fn size_hint(&self) -> (hint: (usize, Option<usize>))
        ensures
            hint == Self::invalid_size_hint(),
            !Interval::of(hint).wf(),
    {
        (10, Some(5))
    }
}

impl<T> Clone for InvalidIterator<T> {
    fn clone(&self) -> Self {
        InvalidIterator(PhantomData)
    }
}

impl<T> Copy for InvalidIterator<T> {

}

impl<T> Default for InvalidIterator<T> {
    fn default() -> Self {
        InvalidIterator(PhantomData)
    }
}

} // verus!
