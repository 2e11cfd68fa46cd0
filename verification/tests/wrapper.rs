use collect_result::sequence::{PullIter, SequenceBuildable, SequenceExtendable};
use collect_result::vec_source::VecSource;
use collect_result::SizeHintedIter;

#[test]
fn with_bounds_stores_bounds_verbatim() {
    let w = SizeHintedIter::with_bounds(VecSource::from_vec(vec![1, 2]), 7, None);
    assert_eq!(w.size_hint(), (7, None));
    assert_eq!(w.lower, 7);
    assert_eq!(w.upper, None);
}

#[test]
fn new_inherits_the_inner_estimate() {
    let w = SizeHintedIter::new(VecSource::from_vec(vec![4, 5, 6]));
    assert_eq!(w.size_hint(), (3, Some(3)));
}

#[test]
fn next_decrements_both_bounds_saturating() {
    let mut w = SizeHintedIter::with_bounds(VecSource::from_vec(vec![1, 2]), 2, Some(1));
    assert_eq!(w.next(), Some(1));
    assert_eq!(w.size_hint(), (1, Some(0)));
    assert_eq!(w.next(), Some(2));
    assert_eq!(w.size_hint(), (0, Some(0)));
    assert_eq!(w.next(), None);
    assert_eq!(w.size_hint(), (0, Some(0)));
}

#[test]
fn zero_estimate_never_underflows() {
    let mut w = SizeHintedIter::with_bounds(VecSource::from_vec(Vec::<i32>::new()), 0, Some(0));
    for _ in 0..5 {
        assert_eq!(w.next(), None);
        assert_eq!(w.size_hint(), (0, Some(0)));
    }
}

#[test]
fn unknown_upper_bound_stays_unknown() {
    let mut w = SizeHintedIter::with_bounds(VecSource::from_vec(vec![9]), 3, None);
    assert_eq!(w.next(), Some(9));
    assert_eq!(w.size_hint(), (2, None));
}

#[test]
fn elements_are_forwarded_unchanged() {
    let mut w = SizeHintedIter::with_bounds(VecSource::from_vec(vec![1, 2]), 9, Some(9));
    assert_eq!(w.next(), Some(1));
    assert_eq!(w.next(), Some(2));
    assert_eq!(w.next(), None);
}

#[test]
fn wrap_unwrap_round_trip_keeps_the_sequence() {
    let src = VecSource::from_vec(vec![4, 5, 6]);
    let w = SizeHintedIter::new(src);
    let mut inner = w.into_inner();
    assert_eq!(inner.size_hint(), (3, Some(3)));
    assert_eq!(inner.next(), Some(4));
    assert_eq!(inner.next(), Some(5));
    assert_eq!(inner.next(), Some(6));
    assert_eq!(inner.next(), None);
}

#[test]
fn vec_source_produces_front_to_back() {
    let mut s = VecSource::from_vec(vec![7, 8]);
    assert_eq!(s.size_hint(), (2, Some(2)));
    assert_eq!(s.next(), Some(7));
    assert_eq!(s.size_hint(), (1, Some(1)));
    assert_eq!(s.next(), Some(8));
    assert_eq!(s.next(), None);
    assert_eq!(s.size_hint(), (0, Some(0)));
}

#[test]
fn vec_source_empty_and_once() {
    let mut e = VecSource::<i32>::empty();
    assert_eq!(e.size_hint(), (0, Some(0)));
    assert_eq!(e.next(), None);
    let mut o = VecSource::once(42);
    assert_eq!(o.size_hint(), (1, Some(1)));
    assert_eq!(o.next(), Some(42));
    assert_eq!(o.next(), None);
}

#[test]
fn vec_builds_and_extends_from_sources() {
    let v: Vec<i32> = <Vec<i32> as SequenceBuildable<i32>>::build_from(VecSource::from_vec(vec![1, 2]));
    assert_eq!(v, vec![1, 2]);
    let mut v = v;
    v.extend_with(SizeHintedIter::with_bounds(VecSource::once(3), 5, Some(5)));
    assert_eq!(v, vec![1, 2, 3]);
}
