use std::ops::Range;

use size_hinter::{HintSize, InvalidIterator, InvalidSizeHint, SizeHint, SizeHinter, TestIterator};

const TEST_ITER: Range<usize> = 1..5;

fn hinted(lower: usize, upper: usize) -> HintSize<Range<usize>> {
    TEST_ITER.hint_size(lower, upper).expect("Invalid size hint")
}

#[test]
fn hint_size_basic_hint() {
    let iter = hinted(3, 5);
    assert_eq!(iter.size_hint(), (3, Some(5)), "expected size_hint to match");
    assert_eq!(iter.hint(), SizeHint::bounded(3, 5));
    assert!(matches!(iter.into_inner(), Range { .. }));
}

#[test]
fn hint_size_min_hint() {
    let iter = TEST_ITER.hint_min(2).expect("Invalid size hint");
    assert_eq!(iter.size_hint(), (2, None), "expected size_hint to match");
    assert!(matches!(iter.into_inner(), Range { .. }));
}

#[test]
fn hint_size_hidden_hint() {
    let iter = TEST_ITER.hide_size();
    assert_eq!(iter.size_hint(), (0, None), "expected size_hint to match");
    assert_eq!(iter.iterator(), &TEST_ITER);
    assert!(matches!(iter.into_inner(), Range { .. }));
}

#[test]
fn hint_size_default_hint() {
    let iter = HintSize::<Range<usize>>::default();
    assert_eq!(iter.size_hint(), SizeHint::universal().size_hint(), "expected size_hint to match");
    assert!(matches!(iter.into_inner(), Range { .. }));
}

#[test]
fn hint_size_invalid_bounds() {
    assert!(TEST_ITER.hint_size(5, 3).is_none());
    assert!(HintSize::new(TEST_ITER, 5, 3).is_none());
}

#[test]
fn hint_size_new_upper_too_small() {
    assert!(TEST_ITER.hint_size(2, 2).is_none());
    assert!(HintSize::new(TEST_ITER, 2, 2).is_none());
}

#[test]
fn hint_size_new_lower_too_large() {
    assert!(TEST_ITER.hint_size(6, 10).is_none());
    assert!(HintSize::new(TEST_ITER, 6, 10).is_none());
}

#[test]
fn hint_size_min_lower_too_large() {
    assert!(TEST_ITER.hint_min(6).is_none());
    assert!(HintSize::min(TEST_ITER, 6).is_none());
}

#[test]
fn hint_size_try_new() {
    let iter = HintSize::try_new(TEST_ITER, 2, 6)
        .expect("iterator's size hint should be valid")
        .expect("hint should overlap");
    assert_eq!(iter.size_hint(), (2, Some(6)), "Initial size hint");

    let out_of_order = HintSize::try_new(TEST_ITER, 6, 2).expect("iterator's size hint should be valid");
    assert_eq!(out_of_order.expect_err("lower bound should be > upper bound"), InvalidSizeHint);
    let above = HintSize::try_new(TEST_ITER, 6, 10).expect("iterator's size hint should be valid");
    assert_eq!(above.expect_err("hint lower bound > iterator's upper bound"), InvalidSizeHint);
    let below = HintSize::try_new(TEST_ITER, 1, 3).expect("iterator's size hint should be valid");
    assert_eq!(below.expect_err("hint upper bound < iterator's lower bound"), InvalidSizeHint);
}

#[test]
fn hint_size_try_min() {
    let iter = HintSize::try_min(TEST_ITER, 2)
        .expect("iterator's size hint should be valid")
        .expect("Should be valid");
    assert_eq!(iter.size_hint(), (2, None));

    let above = HintSize::try_min(TEST_ITER, 6).expect("iterator's size hint should be valid");
    assert_eq!(above.expect_err("lower bound should be > wrapped iterator's upper bound"), InvalidSizeHint);
}

#[test]
fn hint_size_with_reported_overlapping() {
    let iter = HintSize::try_with_reported(TEST_ITER, (4, Some(4)), SizeHint::bounded(2, 5))
        .expect("reported hint is in order")
        .expect("hints overlap");
    assert_eq!(iter.size_hint(), (2, Some(5)));
    assert!(matches!(
        HintSize::try_with_reported(TEST_ITER, (5, Some(9)), SizeHint::bounded(2, 5)),
        Some(Ok(_))
    ));
    assert!(matches!(
        HintSize::try_with_reported(TEST_ITER, (0, Some(2)), SizeHint::unbounded(2)),
        Some(Ok(_))
    ));
    assert!(matches!(
        HintSize::try_with_reported(TEST_ITER, (7, None), SizeHint::unbounded(2)),
        Some(Ok(_))
    ));
}

#[test]
fn hint_size_with_reported_disjoint() {
    assert!(matches!(
        HintSize::try_with_reported(TEST_ITER, (6, Some(9)), SizeHint::bounded(2, 5)),
        Some(Err(InvalidSizeHint))
    ));
    assert!(matches!(
        HintSize::try_with_reported(TEST_ITER, (0, Some(1)), SizeHint::bounded(2, 5)),
        Some(Err(InvalidSizeHint))
    ));
    assert!(matches!(
        HintSize::try_with_reported(TEST_ITER, (0, Some(1)), SizeHint::unbounded(2)),
        Some(Err(InvalidSizeHint))
    ));
    assert!(matches!(
        HintSize::try_with_reported(TEST_ITER, (6, None), SizeHint::bounded(2, 5)),
        Some(Err(InvalidSizeHint))
    ));
}

#[test]
fn hint_size_with_reported_out_of_order() {
    let reported = InvalidIterator::<()>::new().size_hint();
    assert!(HintSize::try_with_reported(TEST_ITER, reported, SizeHint::bounded(5, 10)).is_none());
    assert!(HintSize::try_with_reported(TEST_ITER, reported, SizeHint::universal()).is_none());
    let reported = TestIterator::<()>::invalid().size_hint();
    assert!(HintSize::try_with_reported(TEST_ITER, reported, SizeHint::exact(7)).is_none());
}

#[test]
fn hint_size_forward_iter() {
    let mut iter = hinted(4, 6);
    assert_eq!(iter.size_hint(), (4, Some(6)));
    assert_eq!(iter.next(), Some(1));
    assert_eq!(iter.size_hint(), (3, Some(5)));
    assert_eq!(iter.next(), Some(2));
    assert_eq!(iter.size_hint(), (2, Some(4)));
    assert_eq!(iter.next(), Some(3));
    assert_eq!(iter.size_hint(), (1, Some(3)));
}

#[test]
fn hint_size_backward_iter() {
    let mut iter = hinted(4, 6);
    assert_eq!(iter.size_hint(), (4, Some(6)));
    assert_eq!(iter.next_back(), Some(4));
    assert_eq!(iter.size_hint(), (3, Some(5)));
    assert_eq!(iter.next_back(), Some(3));
    assert_eq!(iter.size_hint(), (2, Some(4)));
    assert_eq!(iter.next_back(), Some(2));
    assert_eq!(iter.size_hint(), (1, Some(3)));
}

#[test]
fn hint_size_either_end_decrements_alike() {
    let mut iter = hinted(4, 6);
    assert_eq!(iter.size_hint(), (4, Some(6)));
    assert_eq!(iter.next(), Some(1));
    assert_eq!(iter.size_hint(), (3, Some(5)));
    assert_eq!(iter.next_back(), Some(4));
    assert_eq!(iter.size_hint(), (2, Some(4)));
    assert_eq!(iter.next_back(), Some(3));
    assert_eq!(iter.size_hint(), (1, Some(3)));
    assert_eq!(iter.next(), Some(2));
    assert_eq!(iter.size_hint(), (0, Some(2)));
    assert_eq!(iter.next(), None);
    assert_eq!(iter.next_back(), None);
    assert_eq!(iter.size_hint(), (0, Some(2)));
}

#[test]
fn hint_size_both_ends() {
    let mut iter = HintSize::new(TEST_ITER, 3, 6).expect("Invalid size hint");
    assert_eq!(iter.size_hint(), (3, Some(6)), "should match the provided size hint");
    assert_eq!(iter.next(), Some(1), "Underlying iterator is not changed");
    assert_eq!(iter.next_back(), Some(4), "Underlying iterator is not changed");
    assert_eq!(iter.size_hint(), (1, Some(4)), "should reflect the new state");
}

#[test]
fn hint_size_unbounded_upper() {
    let mut iter = TEST_ITER.hide_size();
    assert_eq!(iter.size_hint(), (0, None));
    assert_eq!(iter.next(), Some(1));
    assert_eq!(iter.size_hint(), (0, None));
    assert_eq!(iter.next(), Some(2));
    assert_eq!(iter.size_hint(), (0, None));
    assert_eq!(iter.next(), Some(3));
    assert_eq!(iter.size_hint(), (0, None));
    assert_eq!(iter.next(), Some(4));
    assert_eq!(iter.size_hint(), (0, None));
    assert_eq!(iter.next(), None::<usize>);
    assert_eq!(iter.size_hint(), (0, None));
    assert_eq!(iter.next(), None::<usize>);
    assert_eq!(iter.size_hint(), (0, None));
}

#[test]
fn hint_size_hidden_from_either_end() {
    let mut iter = HintSize::hidden(TEST_ITER);
    for _ in 0..10 {
        assert_eq!(iter.size_hint(), (0, None));
        iter.next();
        assert_eq!(iter.size_hint(), (0, None));
        iter.next_back();
    }
    assert_eq!(iter.hint(), SizeHint::universal());
}

#[test]
fn hint_size_min_decrements_lower_only() {
    let mut iter = TEST_ITER.hint_min(4).expect("Invalid size hint");
    assert_eq!(iter.size_hint(), (4, None), "Should match initial lower bound");
    assert_eq!(iter.next(), Some(1), "Should not change underlying iterator");
    assert_eq!(iter.size_hint(), (3, None), "Should reflect new lower bound");
    assert_eq!(iter.next_back(), Some(4));
    assert_eq!(iter.size_hint(), (2, None));
}

#[test]
fn hint_size_saturating_decrement() {
    let mut iter = hinted(2, 5);
    assert_eq!(iter.size_hint(), (2, Some(5)));
    assert_eq!(iter.next(), Some(1));
    assert_eq!(iter.size_hint(), (1, Some(4)));
    assert_eq!(iter.next(), Some(2));
    assert_eq!(iter.size_hint(), (0, Some(3)));
    assert_eq!(iter.next(), Some(3));
    assert_eq!(iter.size_hint(), (0, Some(2)));
    assert_eq!(iter.next(), Some(4));
    assert_eq!(iter.size_hint(), (0, Some(1)));
    assert_eq!(iter.next(), None::<usize>);
    assert_eq!(iter.size_hint(), (0, Some(1)));
}

#[test]
fn hint_size_forward_fused() {
    let mut iter = hinted(4, 4);
    assert_eq!(iter.size_hint(), (4, Some(4)));
    assert_eq!(iter.next(), Some(1));
    assert_eq!(iter.size_hint(), (3, Some(3)));
    assert_eq!(iter.next(), Some(2));
    assert_eq!(iter.size_hint(), (2, Some(2)));
    assert_eq!(iter.next(), Some(3));
    assert_eq!(iter.size_hint(), (1, Some(1)));
    assert_eq!(iter.next(), Some(4));
    assert_eq!(iter.size_hint(), (0, Some(0)));
    assert_eq!(iter.next(), None::<usize>);
    assert_eq!(iter.size_hint(), (0, Some(0)));
    assert_eq!(iter.next(), None::<usize>);
    assert_eq!(iter.size_hint(), (0, Some(0)));
}

#[test]
fn hint_size_backward_fused() {
    let mut iter = hinted(4, 4);
    assert_eq!(iter.size_hint(), (4, Some(4)));
    assert_eq!(iter.next_back(), Some(4));
    assert_eq!(iter.size_hint(), (3, Some(3)));
    assert_eq!(iter.next_back(), Some(3));
    assert_eq!(iter.size_hint(), (2, Some(2)));
    assert_eq!(iter.next_back(), Some(2));
    assert_eq!(iter.size_hint(), (1, Some(1)));
    assert_eq!(iter.next_back(), Some(1));
    assert_eq!(iter.size_hint(), (0, Some(0)));
    assert_eq!(iter.next_back(), None::<usize>);
    assert_eq!(iter.size_hint(), (0, Some(0)));
    assert_eq!(iter.next_back(), None::<usize>);
    assert_eq!(iter.size_hint(), (0, Some(0)));
}

#[test]
fn hint_size_not_fused_can_be_hidden_or_given_a_minimum() {
    let mut calls = 0;
    let resuming = std::iter::from_fn(move || {
        calls += 1;
        if calls % 2 == 0 { None } else { Some(calls) }
    });
    let mut hidden = HintSize::hidden(resuming);
    assert_eq!(hidden.next(), Some(1));
    assert_eq!(hidden.next(), None);
    assert_eq!(hidden.next(), Some(3));
    assert_eq!(hidden.size_hint(), (0, None));

    let mut least = HintSize::min(hidden.into_inner(), 1).expect("Invalid size hint");
    assert_eq!(least.size_hint(), (1, None));
    assert_eq!(least.next(), None);
    assert_eq!(least.size_hint(), (1, None));
    assert_eq!(least.next(), Some(5));
    assert_eq!(least.size_hint(), (0, None));
}

#[test]
fn hint_size_into_inner_keeps_the_position() {
    let mut iter = hinted(4, 6);
    assert_eq!(iter.next(), Some(1));
    assert_eq!(iter.into_inner(), 2..5);
}

#[test]
fn hint_size_clone() {
    let mut iter = hinted(4, 6);
    assert_eq!(iter.next(), Some(1));
    let mut copy = iter.clone();
    assert_eq!(copy.next(), Some(2));
    assert_eq!(copy.size_hint(), (2, Some(4)));
    assert_eq!(iter.size_hint(), (3, Some(5)));
}
