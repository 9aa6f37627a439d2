use datemon::clock::{Sample, Span, NANOS_PER_SEC, SECS_PER_HOUR};

#[test]
fn span_new_rejects_a_full_second_of_nanos() {
    assert!(Span::new(0, NANOS_PER_SEC).is_none());
    assert!(Span::new(7, u32::MAX).is_none());
    assert!(Span::new(7, NANOS_PER_SEC - 1).is_some());
}

#[test]
fn span_parts_come_back() {
    let span = Span::new(12, 345).unwrap();
    assert_eq!(span.secs(), 12);
    assert_eq!(span.subsec_nanos(), 345);
    let whole = Span::from_secs(86_400);
    assert_eq!(whole.secs(), 86_400);
    assert_eq!(whole.subsec_nanos(), 0);
    assert_eq!(whole, Span::new(86_400, 0).unwrap());
}

#[test]
fn span_exceeds_is_strict() {
    let ten = Span::from_secs(10);
    let ten_and_a_bit = Span::new(10, 1).unwrap();
    let nine_and_most = Span::new(9, 999_999_999).unwrap();
    assert!(!ten.exceeds(&ten));
    assert!(ten_and_a_bit.exceeds(&ten));
    assert!(!ten.exceeds(&ten_and_a_bit));
    assert!(ten.exceeds(&nine_and_most));
    assert!(!nine_and_most.exceeds(&ten));
    assert!(Span::from_secs(u64::MAX).exceeds(&Span::from_secs(0)));
}

#[test]
fn whole_hours_round_down() {
    assert_eq!(SECS_PER_HOUR, 3_600);
    assert_eq!(Span::from_secs(0).whole_hours(), 0);
    assert_eq!(Span::new(3_599, 999_999_999).unwrap().whole_hours(), 0);
    assert_eq!(Span::from_secs(3_600).whole_hours(), 1);
    assert_eq!(Span::from_secs(86_400).whole_hours(), 24);
    assert_eq!(Span::from_secs(90_000).whole_hours(), 25);
    assert_eq!(Span::from_secs(u64::MAX).whole_hours(), u64::MAX / 3_600);
}

#[test]
fn sample_new_rejects_a_full_second_of_nanos() {
    assert!(Sample::new(0, NANOS_PER_SEC).is_none());
    assert!(Sample::new(-5, NANOS_PER_SEC).is_none());
    assert!(Sample::new(-5, 999_999_999).is_some());
}

#[test]
fn sample_parts_come_back() {
    let sample = Sample::new(-3, 250_000_000).unwrap();
    assert_eq!(sample.secs(), -3);
    assert_eq!(sample.subsec_nanos(), 250_000_000);
}

#[test]
fn elapsed_is_the_forward_difference() {
    let earlier = Sample::new(100, 0).unwrap();
    let later = Sample::new(115, 0).unwrap();
    assert_eq!(later.elapsed_since(&earlier), Span::from_secs(15));
}

#[test]
fn elapsed_borrows_from_the_seconds() {
    let earlier = Sample::new(100, 900_000_000).unwrap();
    let later = Sample::new(102, 100_000_000).unwrap();
    assert_eq!(later.elapsed_since(&earlier), Span::new(1, 200_000_000).unwrap());
    let close = Sample::new(100, 900_000_001).unwrap();
    assert_eq!(close.elapsed_since(&earlier), Span::new(0, 1).unwrap());
}

#[test]
fn elapsed_is_zero_when_the_clock_went_back() {
    let earlier = Sample::new(100, 5).unwrap();
    let later = Sample::new(115, 0).unwrap();
    assert_eq!(earlier.elapsed_since(&later), Span::from_secs(0));
    assert_eq!(earlier.elapsed_since(&earlier), Span::from_secs(0));
    let just_before = Sample::new(100, 4).unwrap();
    assert_eq!(just_before.elapsed_since(&earlier), Span::from_secs(0));
}

#[test]
fn elapsed_across_the_epoch() {
    let before = Sample::new(-2, 500_000_000).unwrap();
    let after = Sample::new(1, 250_000_000).unwrap();
    assert_eq!(after.elapsed_since(&before), Span::new(2, 750_000_000).unwrap());
    assert_eq!(before.elapsed_since(&after), Span::from_secs(0));
}

#[test]
fn elapsed_between_the_ends_of_time() {
    let first = Sample::new(i64::MIN, 0).unwrap();
    let last = Sample::new(i64::MAX, 999_999_999).unwrap();
    assert_eq!(last.elapsed_since(&first), Span::new(u64::MAX, 999_999_999).unwrap());
    assert_eq!(first.elapsed_since(&last), Span::from_secs(0));
}

#[test]
fn readings_after_the_epoch() {
    assert_eq!(Sample::after_epoch(0, 0), Sample::new(0, 0));
    assert_eq!(Sample::after_epoch(1_700_000_000, 123_456_789), Sample::new(1_700_000_000, 123_456_789));
    assert_eq!(Sample::after_epoch(i64::MAX as u64, 999_999_999), Sample::new(i64::MAX, 999_999_999));
    assert_eq!(Sample::after_epoch(i64::MAX as u64 + 1, 0), None);
    assert_eq!(Sample::after_epoch(u64::MAX, 0), None);
    assert_eq!(Sample::after_epoch(5, 1_000_000_000), None);
}

#[test]
fn readings_before_the_epoch() {
    assert_eq!(Sample::before_epoch(0, 0), Sample::new(0, 0));
    assert_eq!(Sample::before_epoch(3, 0), Sample::new(-3, 0));
    assert_eq!(Sample::before_epoch(2, 750_000_000), Sample::new(-3, 250_000_000));
    assert_eq!(Sample::before_epoch(0, 1), Sample::new(-1, 999_999_999));
    assert_eq!(Sample::before_epoch(i64::MAX as u64, 999_999_999), Sample::new(i64::MIN, 1));
    assert_eq!(Sample::before_epoch(i64::MAX as u64 + 1, 0), Sample::new(i64::MIN, 0));
    assert_eq!(Sample::before_epoch(i64::MAX as u64 + 1, 1), None);
    assert_eq!(Sample::before_epoch(u64::MAX, 0), None);
    assert_eq!(Sample::before_epoch(5, 1_000_000_000), None);
}

#[test]
fn a_reading_before_the_epoch_is_earlier_by_its_distance() {
    let before = Sample::before_epoch(2, 750_000_000).unwrap();
    let epoch = Sample::new(0, 0).unwrap();
    assert_eq!(epoch.elapsed_since(&before), Span::new(2, 750_000_000).unwrap());
}
