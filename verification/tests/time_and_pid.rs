use kleinhirn::pid::Pid;
use kleinhirn::time::{Span, Timestamp};

#[test]
fn timestamps_add_and_saturate() {
    let t = Timestamp::from_millis(5);
    assert_eq!(t.plus(Span::from_millis(10)), Timestamp::from_millis(15));
    assert_eq!(Timestamp::from_nanos(u128::MAX - 1).plus(Span::from_nanos(5)).nanos, u128::MAX);
    assert_eq!(Timestamp::from_nanos(u128::MAX - 5).plus(Span::from_nanos(5)).nanos, u128::MAX);
    assert_eq!(Timestamp::from_nanos(7).plus(Span::from_nanos(3)).nanos, 10);
    assert_eq!(t.plus(Span::from_millis(0)), t);
}

#[test]
fn later_than_is_strict_and_never_negative() {
    let launched = Timestamp::from_millis(1_000);
    assert!(!Timestamp::from_millis(2_000).is_later_than(launched, Span::from_millis(1_000)));
    assert!(Timestamp::from_millis(2_001).is_later_than(launched, Span::from_millis(1_000)));
    assert!(!Timestamp::from_millis(0).is_later_than(launched, Span::from_millis(0)));
    assert!(!launched.is_later_than(launched, Span::from_millis(0)));
    assert!(Timestamp::from_millis(u64::MAX).is_later_than(Timestamp::from_millis(0), Span::from_millis(u64::MAX - 1)));
    assert!(!Timestamp::from_millis(u64::MAX).is_later_than(Timestamp::from_millis(0), Span::from_millis(u64::MAX)));
    assert!(Timestamp::from_nanos(u128::MAX).is_later_than(Timestamp::from_nanos(0), Span::from_nanos(u128::MAX - 1)));
    assert!(!Timestamp::from_nanos(u128::MAX).is_later_than(Timestamp::from_nanos(0), Span::from_nanos(u128::MAX)));
    // one nanosecond over the limit is over the limit
    assert!(Timestamp::from_nanos(1_000_001).is_later_than(Timestamp::from_nanos(0), Span::from_millis(1)));
    assert!(!Timestamp::from_nanos(1_000_000).is_later_than(Timestamp::from_nanos(0), Span::from_millis(1)));
}

#[test]
fn half_rounds_down() {
    assert_eq!(Span::from_millis(1_000).half(), Span::from_millis(500));
    assert_eq!(Span::from_millis(1).half(), Span::from_nanos(500_000));
    assert_eq!(Span::from_nanos(1).half(), Span::from_nanos(0));
    assert_eq!(Span::from_nanos(0).half(), Span::from_nanos(0));
    assert_eq!(Span::from_nanos(u128::MAX).half().nanos, u128::MAX / 2);
}

#[test]
fn milliseconds_are_a_million_nanoseconds() {
    assert_eq!(Span::from_millis(0).nanos, 0);
    assert_eq!(Span::from_millis(3).nanos, 3_000_000);
    assert_eq!(Span::from_millis(u64::MAX).nanos, u64::MAX as u128 * 1_000_000);
    assert_eq!(Timestamp::from_millis(1_001).nanos, 1_001_000_000);
    assert_eq!(Timestamp::from_millis(u64::MAX).nanos, u64::MAX as u128 * 1_000_000);
    assert_eq!(Timestamp::from_nanos(12), Timestamp { nanos: 12 });
    assert_eq!(Span::from_nanos(12), Span { nanos: 12 });
}

#[test]
fn pid_from_the_wire_keeps_the_bits() {
    assert_eq!(Pid::from_wire(0).as_raw(), 0);
    assert_eq!(Pid::from_wire(4242).as_raw(), 4242);
    assert_eq!(Pid::from_wire(0x7fff_ffff).as_raw(), i32::MAX);
    assert_eq!(Pid::from_wire(0x8000_0000).as_raw(), i32::MIN);
    assert_eq!(Pid::from_wire(u32::MAX).as_raw(), -1);
    assert_eq!(Pid::from_raw(17).as_raw(), 17);
}
