use size_hinter::TestIterator;

#[test]
fn new() {
    let iter = TestIterator::<()>::new((5, Some(10)));
    assert_eq!(iter.size_hint(), (5, Some(10)));
}

const EXACT_LEN: usize = 5;

#[test]
fn exact() {
    let iter = TestIterator::<()>::exact(EXACT_LEN);
    assert_eq!(iter.size_hint(), (EXACT_LEN, Some(EXACT_LEN)));
}

#[test]
fn exact_len() {
    let iter = TestIterator::<()>::exact(EXACT_LEN);
    assert_eq!(iter.len(), EXACT_LEN);
}

#[test]
fn invalid_size_hint_is_invalid() {
    let (lower, upper) = TestIterator::<()>::invalid().size_hint();
    assert!(lower > upper.unwrap(), "Size hint should be invalid");
}

#[test]
fn test_iterator_universal() {
    let iter = TestIterator::<()>::universal();
    assert_eq!(iter.size_hint(), (0, None));
}

#[test]
fn test_iterator_zero() {
    let iter = TestIterator::<()>::zero();
    assert_eq!(iter.size_hint(), (0, Some(0)));
    assert_eq!(iter.len(), 0);
}

#[test]
fn test_iterator_takes_the_hint_as_it_is() {
    let iter = TestIterator::<u8>::new((7, Some(3)));
    assert_eq!(iter.size_hint(), (7, Some(3)));
}
