use core::cmp::Ordering;
use core::time::Duration;
use stm32_timer::instant::Instant;

fn at(count_us: i64) -> Instant {
    Instant { count_us }
}

#[test]
fn durations_are_counted_in_whole_microseconds() {
    assert_eq!(at(5) + Duration::from_nanos(2_999), at(7));
    assert_eq!(at(5) - Duration::from_nanos(2_999), at(3));
    assert_eq!(at(5) + Duration::from_nanos(999), at(5));
    assert_eq!(at(5) + Duration::from_millis(3), at(3_005));
    assert_eq!(at(5) - Duration::from_secs(1), at(-999_995));
    assert_eq!(at(1_500_000) - at(0), Duration::from_millis(1_500));
}

#[test]
fn adding_and_subtracting() {
    let d = Duration::from_micros(123_456);
    assert_eq!((at(-7) + d) - d, at(-7));
    assert_eq!((at(-7) + d) - at(-7), d);
    assert_eq!(at(3) - at(3), Duration::ZERO);
}

#[test]
fn difference_to_a_later_instant_wraps() {
    assert_eq!(at(0) - at(1), Duration::from_micros(u64::MAX));
    assert_eq!(at(0).micros_since(at(2)), u64::MAX - 1);
    assert_eq!(at(1) + (at(0) - at(1)), at(0));
}

#[test]
fn long_durations_keep_their_low_bits() {
    assert_eq!(at(1).plus_micros(1 << 64), at(1));
    assert_eq!(at(1).plus_micros(u128::MAX), at(0));
    assert_eq!(at(1).minus_micros((1 << 64) + 4), at(-3));
    assert_eq!(at(0).minus_micros(1 << 63 | 1), at(i64::MAX));
}

#[test]
fn checked_arithmetic() {
    let d = Duration::from_micros(2);
    assert_eq!(at(i64::MAX - 2).checked_add(d), Some(at(i64::MAX)));
    assert_eq!(at(i64::MAX - 1).checked_add(d), None);
    assert_eq!(at(i64::MIN + 2).checked_sub(d), Some(at(i64::MIN)));
    assert_eq!(at(i64::MIN + 1).checked_sub(d), None);
}

#[test]
fn order_of_instants() {
    assert!(at(-1) < at(0));
    assert!(at(2) > at(1));
    assert!(at(2) >= at(2));
    assert_eq!(at(1).cmp(&at(2)), Ordering::Less);
    assert_eq!(at(1).partial_cmp(&at(1)), Some(Ordering::Equal));
    assert_eq!(at(3).cmp(&at(2)), Ordering::Greater);
    assert_eq!(Instant::default(), at(0));
}
