//! A stand-in for a producer that reports whatever size hint it is given.

use vstd::prelude::*;
use core::marker::PhantomData;
use crate::interval::Interval;

verus! {

/// Reports the size hint it was made with, in order or not.
///
/// It serves to see how a consumer of size hints copes with a given hint. It
/// produces no element: `T` is only the type of the elements that it stands
/// for.
pub struct TestIterator<T = ()> {
    size_hint: (usize, Option<usize>),
    _marker: PhantomData<T>,
}

impl<T> TestIterator<T> {
    /// The hint that the stand-in reports.
    pub closed spec fn reported(&self) -> (usize, Option<usize>) {
        self.size_hint
    }

    /// A stand-in that reports `size_hint`, which is taken as it is.
    pub fn new(size_hint: (usize, Option<usize>)) -> (iter: Self)
        ensures
            iter.reported() == size_hint,
    {
        TestIterator { size_hint, _marker: PhantomData }
    }

    /// A stand-in that reports exactly `len` elements.
    pub fn exact(len: usize) -> (iter: Self)
        ensures
            iter.reported() == (len, Some(len)),
    {
        Self::new((len, Some(len)))
    }

    /// A stand-in that reports a hint whose bounds are out of order.
    pub fn invalid() -> (iter: Self)
        ensures
            iter.reported() == (10usize, Some(5usize)),
            !Interval::of(iter.reported()).wf(),
    {
        Self::new((10, Some(5)))
    }

    /// A stand-in that reports the universal hint `(0, None)`.
    pub fn universal() -> (iter: Self)
        ensures
            iter.reported() == (0usize, None::<usize>),
    {
        Self::new((0, None))
    }

    /// A stand-in that reports the hint `(0, Some(0))`.
    pub fn zero() -> (iter: Self)
        ensures
            iter.reported() == (0usize, Some(0usize)),
    {
        Self::new((0, Some(0)))
    }

    /// The reported hint.
    pub fn size_hint(&self) -> (hint: (usize, Option<usize>))
        ensures
            hint == self.reported(),
    {
        self.size_hint
    }

    /// The exact length that the stand-in reports. It must report one: its
    /// bounds must be equal.
    pub fn len(&self) -> (len: usize)
        requires
            self.reported().1 == Some(self.reported().0),
        ensures
            len == self.reported().0,
    {
        let (lower, _) = self.size_hint();
        lower
    }
}

} // verus!
