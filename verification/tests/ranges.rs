use cudarc::driver::range::{IndexRange, RangeBound};

#[test]
fn test_bounds_helper() {
    assert_eq!(
        IndexRange::to(2usize).bounds(IndexRange::inclusive(0, usize::MAX)),
        Some((0, 1))
    );
    assert_eq!(
        IndexRange::new(1, 2usize).bounds(IndexRange::to_inclusive(usize::MAX)),
        Some((1, 1))
    );
    assert_eq!(IndexRange::full().bounds(IndexRange::new(1, 10)), Some((1, 9)));
    assert_eq!(
        IndexRange::inclusive(2, 2usize).bounds(IndexRange::inclusive(0, usize::MAX)),
        Some((2, 2))
    );
    assert_eq!(IndexRange::inclusive(2, 2usize).bounds(IndexRange::inclusive(0, 1)), None);
    assert_eq!(
        IndexRange::new(2, 2usize).bounds(IndexRange::inclusive(0, usize::MAX)),
        None
    );
}

#[test]
fn constructors_set_the_bounds() {
    assert_eq!(IndexRange::new(3, 7).start, RangeBound::Included(3));
    assert_eq!(IndexRange::new(3, 7).end, RangeBound::Excluded(7));
    assert_eq!(IndexRange::inclusive(3, 7).end, RangeBound::Included(7));
    assert_eq!(IndexRange::starting_at(3).start, RangeBound::Included(3));
    assert_eq!(IndexRange::starting_at(3).end, RangeBound::Unbounded);
    assert_eq!(IndexRange::to(7).start, RangeBound::Unbounded);
    assert_eq!(IndexRange::to(7).end, RangeBound::Excluded(7));
    assert_eq!(IndexRange::to_inclusive(7).end, RangeBound::Included(7));
    assert_eq!(IndexRange::full().start, RangeBound::Unbounded);
    assert_eq!(IndexRange::full().end, RangeBound::Unbounded);
}

#[test]
fn contains_follows_each_kind_of_bound() {
    let half_open = IndexRange::new(2, 5);
    assert!(!half_open.contains(1));
    assert!(half_open.contains(2));
    assert!(half_open.contains(4));
    assert!(!half_open.contains(5));
    let closed = IndexRange::inclusive(2, 5);
    assert!(closed.contains(5));
    assert!(!closed.contains(6));
    let after = IndexRange { start: RangeBound::Excluded(2), end: RangeBound::Unbounded };
    assert!(!after.contains(2));
    assert!(after.contains(3));
    assert!(after.contains(usize::MAX));
    assert!(IndexRange::full().contains(0));
    assert!(IndexRange::full().contains(usize::MAX));
}

#[test]
fn inclusive_start_of_each_form() {
    let valid = IndexRange::to(10);
    assert_eq!(IndexRange::new(3, 5).inclusive_start(&valid), Some(3));
    assert_eq!(IndexRange::new(10, 12).inclusive_start(&valid), None);
    assert_eq!(IndexRange::full().inclusive_start(&valid), Some(0));
    assert_eq!(IndexRange::full().inclusive_start(&IndexRange::new(4, 10)), Some(4));
    let after = IndexRange { start: RangeBound::Excluded(3), end: RangeBound::Unbounded };
    assert_eq!(after.inclusive_start(&valid), Some(4));
    let after_nine = IndexRange { start: RangeBound::Excluded(9), end: RangeBound::Unbounded };
    assert_eq!(after_nine.inclusive_start(&valid), None);
}

#[test]
fn inclusive_start_beyond_the_last_index_is_absent() {
    let after_max = IndexRange { start: RangeBound::Excluded(usize::MAX), end: RangeBound::Unbounded };
    assert_eq!(after_max.inclusive_start(&IndexRange::full()), None);
    assert_eq!(IndexRange::full().inclusive_start(&after_max), None);
}

#[test]
fn inclusive_end_of_each_form() {
    let valid = IndexRange::to(10);
    assert_eq!(IndexRange::new(3, 5).inclusive_end(&valid), Some(4));
    assert_eq!(IndexRange::inclusive(3, 5).inclusive_end(&valid), Some(5));
    assert_eq!(IndexRange::new(3, 10).inclusive_end(&valid), Some(9));
    assert_eq!(IndexRange::new(3, 11).inclusive_end(&valid), None);
    assert_eq!(IndexRange::inclusive(3, 10).inclusive_end(&valid), None);
    assert_eq!(IndexRange::starting_at(3).inclusive_end(&valid), Some(9));
    assert_eq!(IndexRange::full().inclusive_end(&IndexRange::full()), Some(usize::MAX));
}

#[test]
fn inclusive_end_before_the_first_index_is_absent() {
    assert_eq!(IndexRange::new(0, 0).inclusive_end(&IndexRange::full()), None);
    assert_eq!(IndexRange::full().inclusive_end(&IndexRange::to(0)), None);
}

#[test]
fn bounds_of_an_empty_or_inverted_range_are_absent() {
    let valid = IndexRange::to(4);
    assert_eq!(IndexRange::new(2, 1).bounds(valid), None);
    assert_eq!(IndexRange::new(2, 2).bounds(valid), None);
    assert_eq!(IndexRange::inclusive(3, 2).bounds(valid), None);
    assert_eq!(IndexRange::full().bounds(IndexRange::to(0)), None);
}

#[test]
fn half_open_and_closed_forms_resolve_alike() {
    let valid = IndexRange::to(8);
    for first in 0..8usize {
        for last in first..8usize {
            let closed = IndexRange::inclusive(first, last).bounds(valid);
            let half_open = IndexRange::new(first, last + 1).bounds(valid);
            assert_eq!(closed, Some((first, last)));
            assert_eq!(half_open, closed);
        }
    }
    assert_eq!(IndexRange::to(3).bounds(valid), IndexRange::to_inclusive(2).bounds(valid));
    assert_eq!(IndexRange::starting_at(5).bounds(valid), IndexRange::new(5, 8).bounds(valid));
    assert_eq!(IndexRange::full().bounds(valid), Some((0, 7)));
}
