//! Size hints as values, and adaptors that give a producer of elements a
//! size hint of the caller's choosing.
//!
//! A size hint bounds the number of elements that a producer has left: at
//! least `lower` and, where an upper bound is known, at most `upper`.
//! [`SizeHint`] holds such a pair with its bounds in order and answers the
//! questions that matter about two of them: whether they can both be true
//! and whether one implies the other. [`ExactLen`] wraps a producer and
//! declares its exact remaining length; [`HintSize`] wraps a producer and
//! reports a chosen hint, or hides the producer's own. Both hold the
//! declared bounds against what the producer itself reports before they
//! accept them, and both count down as elements are taken from either end.
//!
//! The contracts are stated over [`interval::Interval`], the interval of
//! natural numbers that a hint stands for.

pub mod exact_len;
pub mod hint_size;
pub mod interval;
pub mod invalid_iterator;
pub mod size_hint;
pub mod size_hinter;
pub mod test_iter;
pub mod trusted;

pub use exact_len::ExactLen;
pub use hint_size::HintSize;
pub use invalid_iterator::InvalidIterator;
pub use size_hint::{InvalidSizeHint, SizeHint};
pub use size_hinter::SizeHinter;
pub use test_iter::TestIterator;
