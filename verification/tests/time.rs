use review_queue::model::FcpStatus;
use review_queue::time::{Timestamp, MAX_HOURS, MAX_SECOND, MIN_SECOND};

#[test]
fn fcp_ends_240_hours_after_its_start() {
    let fcp = FcpStatus { start: Timestamp { second: 1_700_000_000, nanosecond: 0 } };
    assert_eq!(fcp.ends_on(), Timestamp { second: 1_700_864_000, nanosecond: 0 });
    assert_eq!(fcp.checked_ends_on(), Some(Timestamp { second: 1_700_864_000, nanosecond: 0 }));
}

#[test]
fn fcp_end_keeps_the_nanoseconds() {
    let fcp = FcpStatus { start: Timestamp { second: 10, nanosecond: 123_456_789 } };
    assert_eq!(fcp.ends_on(), Timestamp { second: 864_010, nanosecond: 123_456_789 });
}

#[test]
fn fcp_end_from_the_epoch() {
    let fcp = FcpStatus { start: Timestamp { second: 0, nanosecond: 0 } };
    assert_eq!(fcp.ends_on(), Timestamp { second: 864_000, nanosecond: 0 });
}

#[test]
fn fcp_end_across_the_epoch_changes_sign() {
    // one and a half seconds before the epoch
    let fcp = FcpStatus { start: Timestamp { second: -1, nanosecond: -500_000_000 } };
    assert_eq!(fcp.ends_on(), Timestamp { second: 863_998, nanosecond: 500_000_000 });
}

#[test]
fn fcp_end_of_parts_that_disagree_in_sign() {
    // 2 s - 0.25 s = 1.75 s
    let fcp = FcpStatus { start: Timestamp { second: 2, nanosecond: -250_000_000 } };
    assert_eq!(
        fcp.checked_ends_on(),
        Some(Timestamp { second: 864_001, nanosecond: 750_000_000 })
    );
}

#[test]
fn fcp_end_beyond_the_last_timestamp_is_none() {
    let last = FcpStatus { start: Timestamp { second: MAX_SECOND, nanosecond: 0 } };
    assert_eq!(last.checked_ends_on(), None);
    let just_fits =
        FcpStatus { start: Timestamp { second: MAX_SECOND - 864_000, nanosecond: 999_999_999 } };
    assert_eq!(
        just_fits.checked_ends_on(),
        Some(Timestamp { second: MAX_SECOND, nanosecond: 999_999_999 })
    );
    let just_over = FcpStatus { start: Timestamp { second: MAX_SECOND - 863_999, nanosecond: 0 } };
    assert_eq!(just_over.checked_ends_on(), None);
}

#[test]
fn fcp_end_of_parts_that_name_no_instant_is_none() {
    let early = FcpStatus { start: Timestamp { second: MIN_SECOND - 1, nanosecond: 0 } };
    assert_eq!(early.checked_ends_on(), None);
    let before_first = FcpStatus { start: Timestamp { second: MIN_SECOND, nanosecond: -1 } };
    assert_eq!(before_first.checked_ends_on(), None);
    let nanos = FcpStatus { start: Timestamp { second: 0, nanosecond: 1_000_000_000 } };
    assert_eq!(nanos.checked_ends_on(), None);
    let first = FcpStatus { start: Timestamp { second: MIN_SECOND, nanosecond: 0 } };
    assert_eq!(
        first.checked_ends_on(),
        Some(Timestamp { second: MIN_SECOND + 864_000, nanosecond: 0 })
    );
}

#[test]
fn adding_hours_goes_both_ways() {
    let t = Timestamp { second: 3_600, nanosecond: 5 };
    assert_eq!(t.checked_add_hours(1), Some(Timestamp { second: 7_200, nanosecond: 5 }));
    assert_eq!(t.checked_add_hours(0), Some(t));
    assert_eq!(t.checked_add_hours(-1), Some(Timestamp { second: 0, nanosecond: 5 }));
    assert_eq!(t.checked_add_hours(-2), Some(Timestamp { second: -3_599, nanosecond: -999_999_995 }));
}

#[test]
fn adding_too_many_hours_is_none() {
    let t = Timestamp { second: 0, nanosecond: 0 };
    assert_eq!(t.checked_add_hours(MAX_HOURS), None);
    assert_eq!(t.checked_add_hours(-MAX_HOURS), None);
    assert_eq!(t.checked_add_hours(MAX_HOURS + 1), None);
    assert_eq!(t.checked_add_hours(i64::MAX), None);
    assert_eq!(t.checked_add_hours(i64::MIN), None);
    assert_eq!(t.checked_add_hours(70_389_502), Some(Timestamp { second: 253_402_207_200, nanosecond: 0 }));
    assert_eq!(t.checked_add_hours(70_389_503), None);
}

#[test]
fn from_second_keeps_to_the_range() {
    assert_eq!(Timestamp::from_second(5), Some(Timestamp { second: 5, nanosecond: 0 }));
    assert_eq!(Timestamp::from_second(MAX_SECOND), Some(Timestamp { second: MAX_SECOND, nanosecond: 0 }));
    assert_eq!(Timestamp::from_second(MAX_SECOND + 1), None);
    assert_eq!(Timestamp::from_second(MIN_SECOND - 1), None);
}

#[test]
fn timestamps_are_ordered_by_seconds_then_nanoseconds() {
    let a = Timestamp { second: 1, nanosecond: 5 };
    let b = Timestamp { second: 1, nanosecond: 6 };
    let c = Timestamp { second: 2, nanosecond: 0 };
    let d = Timestamp { second: -1, nanosecond: -6 };
    let e = Timestamp { second: -1, nanosecond: -5 };
    assert!(a.le(&a));
    assert!(a.le(&b) && !b.le(&a));
    assert!(b.le(&c) && !c.le(&b));
    assert!(d.le(&e) && !e.le(&d));
    assert!(e.le(&a));
}
