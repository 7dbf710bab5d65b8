use smart_channel::time_range::AbsoluteTimeRange;
use smart_channel::time_range::AbsoluteTimeRangeF;
use smart_channel::time_range::NonMinI64;
use smart_channel::time_range::RelativeTimeRange;
use smart_channel::time_range::TimeRangeBoundary;
use smart_channel::time_range::TimeReal;

#[test]
fn new_saturates_the_minimum() {
    let range = AbsoluteTimeRange::new(i64::MIN, 10);
    assert_eq!(range.min().get(), i64::MIN + 1);
    assert_eq!(range.max().get(), 10);
}

#[test]
fn point_range_is_degenerate() {
    let range = AbsoluteTimeRange::point(5);
    assert_eq!(range.min().get(), 5);
    assert_eq!(range.max().get(), 5);
    assert_eq!(range.abs_length(), 0);
    assert!(range.contains(NonMinI64::saturating_from_i64(5)));
    assert!(!range.contains(NonMinI64::saturating_from_i64(6)));
}

#[test]
fn bounds_can_be_overwritten() {
    let mut range = AbsoluteTimeRange::new(0, 10);
    range.set_min(-5);
    range.set_max(20);
    assert_eq!(range.min().get(), -5);
    assert_eq!(range.max().get(), 20);
}

#[test]
fn abs_length_and_center_are_exact() {
    let range = AbsoluteTimeRange::new(-10, 30);
    assert_eq!(range.abs_length(), 40);
    assert_eq!(range.center().get(), 10);

    let reversed = AbsoluteTimeRange::new(30, -10);
    assert_eq!(reversed.abs_length(), 40);

    let negative = AbsoluteTimeRange::new(-7, -2);
    assert_eq!(negative.center().get(), -4);
}

#[test]
fn containment_and_intersection() {
    let outer = AbsoluteTimeRange::new(0, 100);
    let inner = AbsoluteTimeRange::new(10, 20);
    let overlapping = AbsoluteTimeRange::new(90, 150);
    let disjoint = AbsoluteTimeRange::new(200, 300);

    assert!(outer.contains_range(inner));
    assert!(!inner.contains_range(outer));

    assert!(outer.intersects(overlapping));
    assert!(!outer.intersects(disjoint));

    let cut = outer.intersection(overlapping).unwrap();
    assert_eq!(cut.min().get(), 90);
    assert_eq!(cut.max().get(), 100);
    assert!(outer.intersection(disjoint).is_none());
}

#[test]
fn union_spans_both_ranges() {
    let a = AbsoluteTimeRange::new(0, 10);
    let b = AbsoluteTimeRange::new(50, 60);
    let u = a.union(b);
    assert_eq!(u.min().get(), 0);
    assert_eq!(u.max().get(), 60);
}

#[test]
fn from_non_min_keeps_bounds() {
    let min = NonMinI64::saturating_from_i64(3);
    let max = NonMinI64::saturating_from_i64(9);
    let range = AbsoluteTimeRange::from_non_min(min, max);
    assert_eq!(range.min().get(), 3);
    assert_eq!(range.max().get(), 9);
}

#[test]
fn time_real_floor_and_ceil() {
    let whole = TimeReal::from_i64(5);
    assert_eq!(whole.floor(), 5);
    assert_eq!(whole.ceil(), 5);

    // 2.5 in fixed-point: halfway between two and three.
    let half = TimeReal::from_i64(2).midpoint(TimeReal::from_i64(3));
    assert_eq!(half.floor(), 2);
    assert_eq!(half.ceil(), 3);

    // -2.5: floor rounds down, ceil rounds up.
    let neg_half = TimeReal::from_i64(-2).midpoint(TimeReal::from_i64(-3));
    assert_eq!(neg_half.floor(), -3);
    assert_eq!(neg_half.ceil(), -2);
}

#[test]
fn fixed_point_range_basics() {
    let range = AbsoluteTimeRangeF::new(TimeReal::from_i64(2), TimeReal::from_i64(6));
    assert!(range.contains(TimeReal::from_i64(2)));
    assert!(range.contains(TimeReal::from_i64(4)));
    assert!(!range.contains(TimeReal::from_i64(7)));
    assert!(!range.is_empty());
    assert_eq!(range.center().fixed_count(), TimeReal::from_i64(4).fixed_count());
    assert_eq!(range.length().fixed_count(), TimeReal::from_i64(4).fixed_count());

    let point = AbsoluteTimeRangeF::point(TimeReal::from_i64(3));
    assert!(point.is_empty());
}

#[test]
fn to_int_rounds_outward() {
    let half_low = TimeReal::from_i64(1).midpoint(TimeReal::from_i64(2));
    let half_high = TimeReal::from_i64(5).midpoint(TimeReal::from_i64(6));
    let range = AbsoluteTimeRangeF::new(half_low, half_high);
    let int_range = range.to_int();
    assert_eq!(int_range.min().get(), 1);
    assert_eq!(int_range.max().get(), 6);
}

#[test]
fn from_range_round_trips_whole_numbers() {
    let range = AbsoluteTimeRange::new(-4, 9);
    let fixed = AbsoluteTimeRangeF::from_range(range);
    let back = fixed.to_int();
    assert_eq!(back.min().get(), -4);
    assert_eq!(back.max().get(), 9);
}

#[test]
fn relative_range_resolves_against_cursor() {
    let range = RelativeTimeRange {
        start: TimeRangeBoundary::CursorRelative(-10),
        end: TimeRangeBoundary::CursorRelative(5),
    };
    let resolved = AbsoluteTimeRange::from_relative_time_range(&range, 100);
    assert_eq!(resolved.min().get(), 90);
    assert_eq!(resolved.max().get(), 105);

    let absolute = RelativeTimeRange {
        start: TimeRangeBoundary::Absolute(7),
        end: TimeRangeBoundary::Infinite,
    };
    let resolved = AbsoluteTimeRange::from_relative_time_range(&absolute, 0);
    assert_eq!(resolved.min().get(), 7);
    assert_eq!(resolved.max().get(), i64::MAX);

    // Bounds that resolve in the wrong order are swapped.
    let reversed = RelativeTimeRange {
        start: TimeRangeBoundary::Absolute(50),
        end: TimeRangeBoundary::Absolute(20),
    };
    let resolved = AbsoluteTimeRange::from_relative_time_range(&reversed, 0);
    assert_eq!(resolved.min().get(), 20);
    assert_eq!(resolved.max().get(), 50);

    // Cursor-relative offsets saturate instead of wrapping.
    let far = RelativeTimeRange {
        start: TimeRangeBoundary::Infinite,
        end: TimeRangeBoundary::CursorRelative(i64::MAX),
    };
    let resolved = AbsoluteTimeRange::from_relative_time_range(&far, 10);
    assert_eq!(resolved.min().get(), i64::MIN + 1);
    assert_eq!(resolved.max().get(), i64::MAX);
}
