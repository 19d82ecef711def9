use ala_archa_backend::number::Number;
use ala_archa_backend::time::{Interval, Timestamp};

fn n(x: f64) -> Number {
    Number::from_bits(x.to_bits())
}

#[test]
fn numbers_compare_as_doubles_do() {
    let values = [
        0.0,
        -0.0,
        1.0,
        -1.0,
        398.08,
        548.08,
        1e-310,
        -1e-310,
        f64::MIN_POSITIVE,
        f64::MAX,
        f64::MIN,
        f64::INFINITY,
        f64::NEG_INFINITY,
        f64::NAN,
        -f64::NAN,
        2.5,
        2.4999999999999996,
    ];
    for a in values {
        for b in values {
            assert_eq!(n(a).lt(&n(b)), a < b, "{a} < {b}");
            assert_eq!(n(a).gt(&n(b)), a > b, "{a} > {b}");
        }
        assert_eq!(n(a).nan(), a.is_nan());
        assert_eq!(n(a).to_bits(), a.to_bits());
    }
}

#[test]
fn elapsed_time_is_exact_to_the_nanosecond() {
    let start = Timestamp::new(100, 999_999_999);
    let span = Interval::new(1, 1);
    assert!(!Timestamp::new(102, 0).elapsed_exceeds(&start, &span));
    assert!(Timestamp::new(102, 1).elapsed_exceeds(&start, &span));
    assert!(Timestamp::new(101, 999_999_999).elapsed_below(&start, &span));
    assert!(!Timestamp::new(102, 0).elapsed_below(&start, &span));
    assert!(!Timestamp::new(50, 0).elapsed_exceeds(&start, &Interval::from_secs(0)));
    assert!(Timestamp::new(50, 0).elapsed_below(&start, &Interval::from_secs(0)));
    assert!(!Timestamp::new(i64::MAX, u32::MAX)
        .elapsed_exceeds(&Timestamp::new(i64::MIN, 0), &Interval::new(u64::MAX, u32::MAX)));
    assert!(Timestamp::new(i64::MAX, u32::MAX)
        .elapsed_exceeds(&Timestamp::new(i64::MIN, 0), &Interval::new(u64::MAX, u32::MAX - 1)));
    assert!(Timestamp::new(-1, 1_000_000_001).is_after(&Timestamp::new(0, 0)));
    assert!(!Timestamp::new(0, 0).is_after(&Timestamp::new(0, 0)));
    assert_eq!(Interval::from_secs(7), Interval::new(7, 0));
}

#[test]
fn the_clock_reads_a_present_day_instant() {
    let now = Timestamp::now();
    assert!(now.is_after(&Timestamp::new(1_600_000_000, 0)));
    let later = Timestamp::now();
    assert!(!now.is_after(&later) || now.secs - later.secs < 5);
}

#[test]
fn local_text_has_the_shape_of_a_date_and_a_time() {
    let text = Timestamp::new(1_700_000_000, 0).to_local_text().unwrap();
    let bytes = text.as_bytes();
    assert_eq!(bytes.len(), 19);
    assert_eq!(bytes[4], b'-');
    assert_eq!(bytes[7], b'-');
    assert_eq!(bytes[10], b' ');
    assert_eq!(bytes[13], b':');
    assert_eq!(bytes[16], b':');
    assert!(text.starts_with("2023-11-1"));
    assert_eq!(Timestamp::new(i64::MAX, 0).to_local_text(), None);
}

#[test]
fn an_instant_has_a_local_text_exactly_within_the_years_that_can_be_shown() {
    let shown = |secs: i64, nanos: u32| Timestamp::new(secs, nanos).to_local_text().is_some();
    assert!(shown(0, 0));
    assert!(shown(-1, 0));
    assert!(shown(8_210_266_876_799, 999_999_999));
    assert!(!shown(8_210_266_876_800, 0));
    assert!(shown(-8_334_601_228_800, 0));
    assert!(!shown(-8_334_601_228_801, 999_999_999));
    assert!(!shown(i64::MIN, 0));
}

#[test]
fn the_sub_second_part_exceeds_a_second_only_in_a_leap_second() {
    let shown = |secs: i64, nanos: u32| Timestamp::new(secs, nanos).to_local_text().is_some();
    assert!(shown(58, 999_999_999));
    assert!(!shown(58, 1_000_000_000));
    assert!(shown(59, 1_000_000_000));
    assert!(shown(59, 1_999_999_999));
    assert!(!shown(59, 2_000_000_000));
    assert!(!shown(60, 1_000_000_000));
    assert!(shown(-1, 1_999_999_999));
    assert!(!shown(-2, 1_000_000_000));
    assert!(shown(-61, 1_500_000_000));
    assert!(shown(8_210_266_876_799, 1_999_999_999));
    assert!(!shown(0, u32::MAX));
}

#[test]
fn the_reading_of_the_clock_can_be_shown() {
    let now = Timestamp::now();
    assert!(now.to_local_text().is_some());
    assert!(now.nanos < 2_000_000_000);
    assert!(now.secs <= 8_210_266_876_799);
}

#[test]
fn an_instant_is_as_far_from_the_epoch_as_the_clock_says() {
    assert_eq!(Timestamp::from_epoch_distance(true, 0, 0), Timestamp::new(0, 0));
    assert_eq!(Timestamp::from_epoch_distance(false, 0, 0), Timestamp::new(0, 0));
    assert_eq!(Timestamp::from_epoch_distance(true, 5, 250), Timestamp::new(5, 250));
    assert_eq!(Timestamp::from_epoch_distance(false, 5, 0), Timestamp::new(-5, 0));
    assert_eq!(Timestamp::from_epoch_distance(false, 5, 250), Timestamp::new(-6, 999_999_750));
    assert_eq!(Timestamp::from_epoch_distance(false, 0, 1), Timestamp::new(-1, 999_999_999));
    assert_eq!(Timestamp::from_epoch_distance(true, 1, 1_500_000_000), Timestamp::new(2, 500_000_000));
    assert_eq!(
        Timestamp::from_epoch_distance(true, i64::MAX as u64, 999_999_999),
        Timestamp::new(i64::MAX, 999_999_999)
    );
    assert_eq!(
        Timestamp::from_epoch_distance(true, i64::MAX as u64 + 1, 0),
        Timestamp::new(i64::MAX, 999_999_999)
    );
    assert_eq!(Timestamp::from_epoch_distance(true, u64::MAX, u32::MAX), Timestamp::new(i64::MAX, 999_999_999));
    assert_eq!(
        Timestamp::from_epoch_distance(false, i64::MAX as u64 + 1, 0),
        Timestamp::new(i64::MIN, 0)
    );
    assert_eq!(
        Timestamp::from_epoch_distance(false, i64::MAX as u64, 1),
        Timestamp::new(i64::MIN, 999_999_999)
    );
    assert_eq!(
        Timestamp::from_epoch_distance(false, i64::MAX as u64 + 1, 1),
        Timestamp::new(i64::MIN, 0)
    );
    assert_eq!(Timestamp::from_epoch_distance(false, u64::MAX, 7), Timestamp::new(i64::MIN, 0));
}

#[test]
fn spans_and_differences_count_nanoseconds() {
    assert_eq!(Interval::from_nanos(0), Interval::new(0, 0));
    assert_eq!(Interval::from_nanos(999_999_999), Interval::new(0, 999_999_999));
    assert_eq!(Interval::from_nanos(10_000_000_001), Interval::new(10, 1));
    assert_eq!(Interval::from_nanos(u64::MAX), Interval::new(18_446_744_073, 709_551_615));
    assert_eq!(Timestamp::new(3, 5).nanos_since(&Timestamp::new(1, 7)), 1_999_999_998);
    assert_eq!(Timestamp::new(1, 7).nanos_since(&Timestamp::new(3, 5)), -1_999_999_998);
    assert_eq!(
        Timestamp::new(i64::MAX, u32::MAX).nanos_since(&Timestamp::new(i64::MIN, 0)),
        u64::MAX as i128 * 1_000_000_000 + u32::MAX as i128
    );
}

#[test]
fn the_clock_gives_a_sub_second_part_below_one_second() {
    for _ in 0..100 {
        assert!(Timestamp::now().nanos < 1_000_000_000);
    }
}
