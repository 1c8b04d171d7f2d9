//! The few places where this crate calls code that Verus has not read.
//!
//! Each function here makes one call and hands the result on; its contract
//! is believed, not proved.

use vstd::prelude::*;
use core::ops::RangeInclusive;
use fluent_result::bool::Then;

verus! {

/// What `RangeInclusive::start` returns for a range in the given state.
pub uninterp spec fn inclusive_start(start: usize, end: usize, exhausted: bool) -> usize;

/// What `RangeInclusive::end` returns for a range in the given state.
pub uninterp spec fn inclusive_end(start: usize, end: usize, exhausted: bool) -> usize;

/// Calls `RangeInclusive::start`. The standard library documents it as the
/// lower bound of the range, and leaves the value open once iteration has
/// exhausted the range; the contract claims the lower bound for ranges that
/// are not exhausted and only names the result otherwise.
#[verifier::external_body]
pub(crate) fn range_start(range: &RangeInclusive<usize>) -> (start: usize)
    ensures
        start == inclusive_start(range@.start, range@.end, range@.exhausted),
        !range@.exhausted ==> start == range@.start,
{
    *range.start()
}

/// Calls `RangeInclusive::end`. The standard library documents it as the
/// upper bound of the range, and leaves the value open once iteration has
/// exhausted the range; the contract claims the upper bound for ranges that
/// are not exhausted and only names the result otherwise.
#[verifier::external_body]
pub(crate) fn range_end(range: &RangeInclusive<usize>) -> (end: usize)
    ensures
        end == inclusive_end(range@.start, range@.end, range@.exhausted),
        !range@.exhausted ==> end == range@.end,
{
    *range.end()
}

/// Calls `fluent_result::bool::Then::then_err`, which turns a guard into a
/// result: the error when the guard is true, and `Ok(())` when it is false.
#[verifier::external_body]
pub(crate) fn then_err<E>(guard: bool, err: E) -> (r: Result<(), E>)
    ensures
        r == (if guard {
            Err::<(), E>(err)
        } else {
            Ok::<(), E>(())
        }),
{
    guard.then_err(err)
}

/// Calls `Iterator::size_hint`. The bounds come from the producer's own
/// code, which may report anything, so nothing is claimed of them.
#[verifier::external_body]
pub(crate) fn reported_hint<I: Iterator>(iterator: &I) -> (usize, Option<usize>) {
    iterator.size_hint()
}

} // verus!
