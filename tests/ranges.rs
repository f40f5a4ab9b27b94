use range_algebra::{OpenRange, PartialBounds, PartialRange, Range, RangeIndex, StrictBounds};

#[test]
fn bounded_clamp_inside() {
    let r: std::ops::Range<u64> = 3..10;
    assert_eq!(Range::clamp(&r, 5, 8), 5..8);
}

#[test]
fn bounded_clamp_past_end_is_empty_at_end() {
    let r: std::ops::Range<u64> = 3..10;
    assert_eq!(Range::clamp(&r, 12, 20), 10..10);
}

#[test]
fn bounded_clamp_reversed_bounds_is_empty() {
    let r: std::ops::Range<u32> = 3..10;
    let c = Range::clamp(&r, 8, 5);
    assert_eq!(c, 5..5);
    assert!(c.start <= c.end);
}

#[test]
fn bounded_clamp_start_never_after_end() {
    let r: std::ops::Range<u8> = 2..6;
    for lo in 0..12u8 {
        for hi in 0..12u8 {
            let c = Range::clamp(&r, lo, hi);
            assert!(c.start <= c.end);
        }
    }
}

#[test]
fn bounded_clamp_is_idempotent() {
    let r: std::ops::Range<u16> = 4..20;
    for (lo, hi) in [(0u16, 30u16), (6, 9), (25, 40), (9, 6), (0, 2)] {
        let once = Range::clamp(&r, lo, hi);
        let twice = Range::clamp(&once, lo, hi);
        assert_eq!(once, twice);
    }
}

#[test]
fn bounded_clamp_left_and_right() {
    let r: std::ops::Range<u64> = 3..10;
    assert_eq!(Range::clamp_left(&r, 5), 5..10);
    assert_eq!(Range::clamp_left(&r, 1), 3..10);
    assert_eq!(Range::clamp_left(&r, 15), 10..10);
    assert_eq!(Range::clamp_right(&r, 7), 3..7);
    assert_eq!(Range::clamp_right(&r, 12), 3..10);
    assert_eq!(Range::clamp_right(&r, 1), 1..1);
}

#[test]
fn bounded_intersection_both_ways() {
    let a: std::ops::Range<u64> = 3..10;
    let b: std::ops::Range<u64> = 6..15;
    assert_eq!(Range::intersection(&a, &b), 6..10);
    assert_eq!(Range::intersection(&b, &a), 6..10);
    let c: std::ops::Range<u64> = 12..15;
    let ac = Range::intersection(&a, &c);
    let ca = Range::intersection(&c, &a);
    assert_eq!(ac.start, ac.end);
    assert_eq!(ca.start, ca.end);
}

#[test]
fn bounded_to_open_range() {
    let r: std::ops::Range<u64> = 3..10;
    assert_eq!(Range::to_open_range(&r), OpenRange { start: 3, end: Some(10) });
}

#[test]
fn open_intersected_with_bounded() {
    let o = OpenRange { start: 5u64, end: None };
    assert_eq!(
        PartialRange::intersection(&o, 2u64..9),
        OpenRange { start: 5, end: Some(9) }
    );
}

#[test]
fn full_intersected_with_from_stays_open() {
    let r: OpenRange<u64> = PartialRange::intersection(&.., 5u64..);
    assert_eq!(r, OpenRange { start: 5, end: None });
}

#[test]
fn partial_intersection_same_indices_both_ways() {
    let a = OpenRange { start: 4u32, end: None };
    let b = OpenRange { start: 1u32, end: Some(7) };
    let ab = PartialRange::intersection(&a, b);
    let ba = PartialRange::intersection(&b, a);
    assert_eq!(ab, OpenRange { start: 4, end: Some(7) });
    assert_eq!(ba, OpenRange { start: 4, end: Some(7) });
    let bounded: std::ops::Range<u32> = 2..6;
    let from_bounded = Range::intersection(&bounded, &(0u32..4));
    let from_partial = PartialRange::intersection(&(0u32..4), bounded);
    assert_eq!(from_bounded, 2..4);
    assert_eq!(from_partial, OpenRange { start: 2, end: Some(4) });
}

#[test]
fn partial_clamp_open_end_takes_hi() {
    let o = OpenRange { start: 5u64, end: None };
    assert_eq!(PartialRange::clamp(&o, 2, 9), 5..9);
    let b = OpenRange { start: 5u64, end: Some(7) };
    assert_eq!(PartialRange::clamp(&b, 2, 9), 5..7);
    assert_eq!(PartialRange::clamp(&b, 8, 9), 7..7);
}

#[test]
fn partial_clamp_left_keeps_openness() {
    let o = OpenRange { start: 5u64, end: None };
    assert_eq!(PartialRange::clamp_left(&o, 8), OpenRange { start: 8, end: None });
    assert_eq!(PartialRange::clamp_left(&o, 2), OpenRange { start: 5, end: None });
    let b = OpenRange { start: 5u64, end: Some(7) };
    assert_eq!(PartialRange::clamp_left(&b, 6), OpenRange { start: 6, end: Some(7) });
}

#[test]
fn partial_clamp_right() {
    let o = OpenRange { start: 5u64, end: None };
    assert_eq!(PartialRange::clamp_right(&o, 9), 5..9);
    assert_eq!(PartialRange::clamp_right(&o, 3), 3..3);
    let b = OpenRange { start: 5u64, end: Some(7) };
    assert_eq!(PartialRange::clamp_right(&b, 9), 5..7);
    assert_eq!(PartialRange::clamp_right(&b, 6), 5..6);
}

#[test]
fn inclusive_end_is_one_past() {
    let r = 3u8..=7;
    assert_eq!(StrictBounds::start(&r), 3);
    assert_eq!(StrictBounds::end(&r), 8);
    assert_eq!(PartialBounds::start(&r), 3);
    assert_eq!(PartialBounds::end(&r), Some(8));
}

#[test]
fn inclusive_end_saturates_at_max() {
    let r = 3u8..=255;
    assert_eq!(StrictBounds::end(&r), 255);
    assert_eq!(PartialBounds::end(&r), Some(255));
    let w = 0u64..=u64::MAX;
    assert_eq!(StrictBounds::end(&w), u64::MAX);
}

#[test]
fn to_range_starts_at_zero() {
    let r = ..9u32;
    assert_eq!(StrictBounds::start(&r), 0);
    assert_eq!(StrictBounds::end(&r), 9);
    assert_eq!(PartialBounds::start(&r), 0);
    assert_eq!(PartialBounds::end(&r), Some(9));
    let z = ..0u32;
    assert_eq!(StrictBounds::start(&z), 0);
}

#[test]
fn to_inclusive_range() {
    let r = ..=9usize;
    assert_eq!(StrictBounds::start(&r), 0);
    assert_eq!(StrictBounds::end(&r), 10);
    assert_eq!(PartialBounds::end(&r), Some(10));
    let m = ..=usize::MAX;
    assert_eq!(StrictBounds::end(&m), usize::MAX);
}

#[test]
fn from_and_full_have_no_end() {
    let f = 4u16..;
    assert_eq!(PartialBounds::start(&f), 4);
    assert_eq!(PartialBounds::end(&f), None);
    assert_eq!(PartialBounds::<u16>::start(&..), 0);
    assert_eq!(PartialBounds::<u16>::end(&..), None);
}

#[test]
fn inclusive_clamp_uses_exclusive_end() {
    let r = 2u8..=250;
    assert_eq!(Range::clamp(&r, 0, 255), 2..251);
    let m = 2u8..=255;
    assert_eq!(Range::clamp(&m, 0, 255), 2..255);
}

#[test]
fn index_capabilities() {
    assert_eq!(<u8 as RangeIndex>::zero_idx(), 0);
    assert_eq!(<u8 as RangeIndex>::one_idx(), 1);
    assert_eq!(200u8.add_saturating(&100), 255);
    assert_eq!(20u8.add_saturating(&100), 120);
    assert!(3u64.at_most(&3));
    assert!(!4u64.at_most(&3));
    assert_eq!(range_algebra::lesser(4u32, 9), 4);
    assert_eq!(range_algebra::greater(4u32, 9), 9);
}

#[test]
fn signed_indices() {
    let r: std::ops::Range<i32> = -10..10;
    assert_eq!(Range::clamp(&r, -3, 4), -3..4);
    assert_eq!(Range::clamp(&r, -30, -20), -20..-20);
    let inc = -5i64..=i64::MAX;
    assert_eq!(StrictBounds::end(&inc), i64::MAX);
    let inc2 = -5i64..=-2;
    assert_eq!(StrictBounds::end(&inc2), -1);
    assert_eq!(StrictBounds::start(&..-4i32), 0);
    assert_eq!((-100i32).add_saturating(&-100), -200);
    assert_eq!(i32::MIN.add_saturating(&-1), i32::MIN);
}
