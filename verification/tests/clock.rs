use dashcmafsink::clock::{ClockTime, CLOCK_TIME_NONE, NANOS_PER_MSECOND, NANOS_PER_SECOND};

#[test]
fn units_are_nanoseconds() {
    assert_eq!(NANOS_PER_SECOND, 1_000_000_000);
    assert_eq!(NANOS_PER_MSECOND, 1_000_000);
    assert_eq!(CLOCK_TIME_NONE, u64::MAX);
}

#[test]
fn seconds_become_nanoseconds() {
    assert_eq!(ClockTime::from_seconds(10).nseconds(), 10_000_000_000);
    assert_eq!(ClockTime::from_mseconds(5000).nseconds(), 5_000_000_000);
    assert_eq!(ClockTime::from_nseconds(17).nseconds(), 17);
    assert_eq!(ClockTime::zero().nseconds(), 0);
}

#[test]
fn whole_units_round_down() {
    let t = ClockTime::from_nseconds(2_999_999_999);
    assert_eq!(t.seconds(), 2);
    assert_eq!(t.mseconds(), 2999);
}

#[test]
fn largest_time_in_seconds() {
    let most = u64::MAX / NANOS_PER_SECOND;
    assert_eq!(ClockTime::from_seconds(most).seconds(), most);
}

#[test]
fn difference_of_times() {
    let a = ClockTime::from_seconds(3);
    let b = ClockTime::from_mseconds(500);
    assert_eq!(a.checked_sub(b).map(|d| d.mseconds()), Some(2500));
    assert_eq!(a.checked_sub(a).map(|d| d.nseconds()), Some(0));
    assert!(b.checked_sub(a).is_none());
}
