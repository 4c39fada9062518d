use interval::ops::{
    Bounded, Cardinality, Contains, Difference, Disjoint, Empty, Intersection, Overlap,
    ProperSubset, ShrinkLeft, ShrinkRight, Singleton, StrictShrinkLeft, StrictShrinkRight, Subset,
};
use interval::optional::Optional;

fn samples() -> Vec<Optional<i32>> {
    vec![
        Optional::wrap(None),
        Optional::wrap(Some(0)),
        Optional::wrap(Some(10)),
        Optional::wrap(Some(-7)),
        Optional::wrap(Some(i32::MAX)),
        Optional::wrap(Some(i32::MIN)),
    ]
}

#[test]
fn singleton_equals_wrapped_value() {
    for v in [0, 1, -1, 10, i32::MAX, i32::MIN] {
        let s: Optional<i32> = Singleton::singleton(v);
        assert_eq!(s, Optional::wrap(Some(v)));
        assert_eq!(*s, Some(v));
    }
    let e: Optional<i32> = Empty::empty();
    assert_eq!(*e, None);
}

#[test]
fn intersection_is_symmetric() {
    for a in samples() {
        for b in samples() {
            assert_eq!(a.intersection(&b), b.intersection(&a));
        }
    }
}

#[test]
fn intersection_and_difference_with_itself() {
    for a in samples() {
        assert_eq!(a.intersection(&a), a);
        assert_eq!(a.difference(&a), Optional::wrap(None));
    }
}

#[test]
fn difference_is_asymmetric() {
    let zero = Optional::wrap(Some(0));
    let ten = Optional::wrap(Some(10));
    let e: Optional<i32> = Optional::wrap(None);
    assert_eq!(zero.difference(&e), zero);
    assert_eq!(e.difference(&zero), e);
    assert_eq!(zero.difference(&ten), zero);
    assert_eq!(ten.difference(&zero), ten);
}

#[test]
fn disjoint_is_negated_overlap() {
    for a in samples() {
        for b in samples() {
            assert_eq!(a.is_disjoint(&b), !a.overlap(&b));
            if a.is_empty() || b.is_empty() {
                assert!(a.is_disjoint(&b));
                assert!(!a.overlap(&b));
            }
        }
    }
}

#[test]
fn bounds_of_negative_singleton() {
    let s = Optional::wrap(Some(-7));
    assert_eq!(s.lower(), -7);
    assert_eq!(s.upper(), -7);
}

#[test]
fn containment_at_extremes() {
    let top = Optional::wrap(Some(i32::MAX));
    assert!(top.contains(&i32::MAX));
    assert!(!top.contains(&(i32::MAX - 1)));
    let e: Optional<i32> = Optional::wrap(None);
    assert!(!e.contains(&i32::MIN));
}

#[test]
fn subset_and_proper_subset_edges() {
    let zero = Optional::wrap(Some(0));
    let e: Optional<i32> = Optional::wrap(None);
    assert!(e.is_subset(&e));
    assert!(!zero.is_subset(&e));
    assert!(!e.is_proper_subset(&e));
    assert!(e.is_proper_subset(&zero));
    assert!(!zero.is_proper_subset(&zero));
}

#[test]
fn shrink_on_extreme_bounds() {
    let top = Optional::wrap(Some(i32::MAX));
    let e: Optional<i32> = Optional::wrap(None);
    assert_eq!(top.shrink_left(i32::MAX), top);
    assert_eq!(top.strict_shrink_left(i32::MAX), e);
    assert_eq!(top.shrink_right(i32::MIN), e);
    assert_eq!(top.strict_shrink_right(i32::MIN), e);
    assert_eq!(top.strict_shrink_left(i32::MIN), top);
}

#[test]
fn raw_access_reads_and_replaces() {
    let mut s: Optional<i32> = Optional::wrap(None);
    assert!(s.is_none());
    *s = Some(3);
    assert_eq!(s.size(), 1);
    assert!(s.contains(&3));
    *s = None;
    assert!(s.is_empty());
}

#[test]
fn ordering_puts_empty_first() {
    let e: Optional<i32> = Optional::wrap(None);
    let zero = Optional::wrap(Some(0));
    let ten = Optional::wrap(Some(10));
    assert!(e < zero);
    assert!(zero < ten);
}
