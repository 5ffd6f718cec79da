use mediatime::{
    Duration, DurationH264, UnixH264, UnixNano, H264_MILLISECOND, H264_SECOND, HOUR,
    MICROSECOND, MILLISECOND, MINUTE, NANOSECOND, SECOND,
};

#[test]
fn unit_constants() {
    assert_eq!(NANOSECOND, 1);
    assert_eq!(MICROSECOND, 1_000);
    assert_eq!(MILLISECOND, 1_000_000);
    assert_eq!(SECOND, 1_000_000_000);
    assert_eq!(MINUTE, 60_000_000_000);
    assert_eq!(HOUR, 3_600_000_000_000);
    assert_eq!(H264_SECOND, 90_000);
    assert_eq!(H264_MILLISECOND, 90);
}

#[test]
fn unix_nano_add_and_sub_duration() {
    let t = UnixNano::from(1_000);
    assert_eq!(t.add_duration(Duration::from_nanos(500)), Some(UnixNano::from(1_500)));
    assert_eq!(t.sub_duration(Duration::from_nanos(1_500)), Some(UnixNano::from(-500)));
    assert_eq!(UnixNano::max_value().add_duration(Duration::from_nanos(1)), None);
    assert_eq!(UnixNano::from(i64::MIN).sub_duration(Duration::from_nanos(1)), None);
    assert_eq!(UnixNano::from(i64::MIN).add_duration(Duration::from_nanos(-1)), None);
    assert_eq!(
        UnixNano::from(i64::MAX - 1).add_duration(Duration::from_nanos(1)),
        Some(UnixNano::max_value())
    );
}

#[test]
fn unix_nano_max_value() {
    assert_eq!(*UnixNano::max_value(), i64::MAX);
}

#[test]
fn unix_nano_ordering() {
    let a = UnixNano::from(10);
    let b = UnixNano::from(20);
    assert!(b.after(a));
    assert!(!a.after(b));
    assert!(a.before(b));
    assert!(!b.before(a));
    assert!(!a.after(a));
    assert!(!a.before(a));
    assert!(*b.sub(a).unwrap() > 0);
    assert!(*a.sub(b).unwrap() < 0);
}

#[test]
fn unix_nano_sub() {
    assert_eq!(UnixNano::from(50).sub(UnixNano::from(80)), Some(Duration::from_nanos(-30)));
    assert_eq!(UnixNano::max_value().sub(UnixNano::from(-1)), None);
    assert_eq!(UnixNano::from(i64::MIN).sub(UnixNano::from(1)), None);
}

#[test]
fn unix_nano_from_epoch_nanos() {
    assert_eq!(UnixNano::from_epoch_nanos(42), Some(UnixNano::from(42)));
    assert_eq!(
        UnixNano::from_epoch_nanos(i64::MAX as u128),
        Some(UnixNano::max_value())
    );
    assert_eq!(UnixNano::from_epoch_nanos(i64::MAX as u128 + 1), None);
}

#[test]
fn unix_nano_as_chrono() {
    let epoch = chrono::NaiveDate::from_ymd_opt(1970, 1, 1)
        .unwrap()
        .and_hms_opt(0, 0, 0)
        .unwrap();
    assert_eq!(UnixNano::from(0).as_chrono(), Some(epoch));
    let later = chrono::NaiveDate::from_ymd_opt(2001, 9, 9)
        .unwrap()
        .and_hms_nano_opt(1, 46, 40, 5)
        .unwrap();
    assert_eq!(UnixNano::from(1_000_000_000_000_000_005).as_chrono(), Some(later));
    let before = chrono::NaiveDate::from_ymd_opt(1969, 12, 31)
        .unwrap()
        .and_hms_opt(23, 59, 59)
        .unwrap();
    assert_eq!(UnixNano::from(-1_000_000_000).as_chrono(), Some(before));
    let just_before = chrono::NaiveDate::from_ymd_opt(1969, 12, 31)
        .unwrap()
        .and_hms_nano_opt(23, 59, 59, 999_999_999)
        .unwrap();
    assert_eq!(UnixNano::from(-1).as_chrono(), Some(just_before));
    let earlier = chrono::NaiveDate::from_ymd_opt(1969, 12, 31)
        .unwrap()
        .and_hms_milli_opt(23, 59, 58, 500)
        .unwrap();
    assert_eq!(UnixNano::from(-1_500_000_000).as_chrono(), Some(earlier));
    assert!(UnixNano::from(i64::MIN).as_chrono().is_some());
    assert!(UnixNano::max_value().as_chrono().is_some());
}

#[test]
fn duration_from_units() {
    assert_eq!(*Duration::from_nanos(-7), -7);
    assert_eq!(*Duration::from_millis(3), 3_000_000);
    assert_eq!(*Duration::from_secs(2), 2_000_000_000);
    assert_eq!(*Duration::from_minutes(5), 300_000_000_000);
    assert_eq!(*Duration::from_hours(2), 7_200_000_000_000);
    assert_eq!(*Duration::from_millis(u32::MAX), 4_294_967_295_000_000);
    assert_eq!(*Duration::from_secs(u32::MAX), 4_294_967_295_000_000_000);
    assert_eq!(*Duration::from(9i64), 9);
    assert_eq!(*Duration::default(), 0);
}

#[test]
fn duration_as_std() {
    assert_eq!(
        Duration::from_nanos(1_500).as_std(),
        Some(std::time::Duration::from_nanos(1_500))
    );
    assert_eq!(Duration::from_nanos(1_500).as_std().unwrap().as_nanos(), 1_500);
    assert_eq!(Duration::from_nanos(0).as_std(), Some(std::time::Duration::ZERO));
    assert_eq!(Duration::from_nanos(-1).as_std(), None);
}

#[test]
fn duration_as_h264() {
    assert_eq!(*Duration::from_secs(1).as_h264(), 90_000);
    assert_eq!(*Duration::from_millis(1).as_h264(), 90);
    assert_eq!(*Duration::from_nanos(-1_000_000).as_h264(), -90);
    assert_eq!(*Duration::from_minutes(5).as_h264(), 27_000_000);
}

#[test]
fn duration_until() {
    let now = UnixNano::from(1_000);
    assert_eq!(Duration::until(UnixNano::from(4_000), now), Some(Duration::from_nanos(3_000)));
    assert_eq!(Duration::until(UnixNano::from(0), now), Some(Duration::from_nanos(-1_000)));
    assert_eq!(Duration::until(UnixNano::from(i64::MIN), now), None);
}

#[test]
fn unix_h264_from_epoch_nanos() {
    assert_eq!(
        UnixH264::from_epoch_nanos(2_000_000_000),
        Some(UnixH264::from(180_000))
    );
    assert_eq!(UnixH264::from_epoch_nanos(11_111), Some(UnixH264::from(0)));
    assert_eq!(UnixH264::from_epoch_nanos(i64::MAX as u128 + 1), None);
}

#[test]
fn unix_h264_checked_arithmetic() {
    let t = UnixH264::from(100);
    assert_eq!(t.checked_add_duration(DurationH264::new(5)), Some(UnixH264::from(105)));
    assert_eq!(t.checked_sub_duration(DurationH264::new(5)), Some(UnixH264::from(95)));
    assert_eq!(t.checked_sub(UnixH264::from(130)), Some(UnixH264::from(-30)));
    assert_eq!(UnixH264::from(i64::MAX).checked_add_duration(DurationH264::new(1)), None);
    assert_eq!(UnixH264::from(i64::MIN).checked_sub_duration(DurationH264::new(1)), None);
    assert_eq!(UnixH264::from(i64::MIN).checked_sub(UnixH264::from(1)), None);
}

#[test]
fn unix_h264_after() {
    let a = UnixH264::from(1);
    let b = UnixH264::from(2);
    assert!(b.after(a));
    assert!(!a.after(b));
    assert!(!a.after(a));
}

#[test]
fn unix_h264_as_nanos() {
    assert_eq!(UnixH264::from(90_000).as_nanos(), UnixNano::from(1_000_000_000));
    assert_eq!(UnixH264::from(1).as_nanos(), UnixNano::from(11_111));
    assert_eq!(UnixH264::from(-1).as_nanos(), UnixNano::from(-11_111));
    assert_eq!(UnixH264::from(135_000).as_nanos(), UnixNano::from(1_500_000_000));
}

#[test]
fn unix_h264_as_chrono() {
    let t = chrono::NaiveDate::from_ymd_opt(1970, 1, 1)
        .unwrap()
        .and_hms_milli_opt(0, 0, 1, 500)
        .unwrap();
    assert_eq!(UnixH264::from(135_000).as_chrono(), Some(t));
    let tick_before = chrono::NaiveDate::from_ymd_opt(1969, 12, 31)
        .unwrap()
        .and_hms_nano_opt(23, 59, 59, 999_988_889)
        .unwrap();
    assert_eq!(UnixH264::from(-1).as_chrono(), Some(tick_before));
}

#[test]
fn duration_h264_checked_arithmetic() {
    let a = DurationH264::new(7);
    let b = DurationH264::new(2);
    assert_eq!(a.checked_add(b), Some(DurationH264::new(9)));
    assert_eq!(a.checked_sub(b), Some(DurationH264::new(5)));
    assert_eq!(a.checked_mul(b), Some(DurationH264::new(14)));
    assert_eq!(a.checked_div(b), Some(DurationH264::new(3)));
    assert_eq!(a.checked_rem(b), Some(DurationH264::new(1)));
    let n = DurationH264::new(-7);
    assert_eq!(n.checked_div(b), Some(DurationH264::new(-3)));
    assert_eq!(n.checked_rem(b), Some(DurationH264::new(-1)));
    assert_eq!(a.checked_rem(DurationH264::new(-2)), Some(DurationH264::new(1)));
}

#[test]
fn duration_h264_checked_overflow() {
    let max = DurationH264::new(i64::MAX);
    let min = DurationH264::new(i64::MIN);
    let one = DurationH264::new(1);
    let zero = DurationH264::new(0);
    assert_eq!(max.checked_add(one), None);
    assert_eq!(min.checked_sub(one), None);
    assert_eq!(max.checked_mul(DurationH264::new(2)), None);
    assert_eq!(min.checked_mul(DurationH264::new(-1)), None);
    assert_eq!(one.checked_div(zero), None);
    assert_eq!(one.checked_rem(zero), None);
    assert_eq!(min.checked_div(DurationH264::new(-1)), None);
    assert_eq!(min.checked_rem(DurationH264::new(-1)), None);
    assert_eq!(max.checked_add(DurationH264::new(0)), Some(max));
    assert_eq!(min.checked_div(one), Some(min));
}

#[test]
fn duration_h264_is_zero() {
    assert!(DurationH264::new(0).is_zero());
    assert!(DurationH264::default().is_zero());
    assert!(!DurationH264::new(-1).is_zero());
}

#[test]
fn duration_h264_narrowing() {
    assert_eq!(DurationH264::new(i64::from(i32::MAX)).as_i32(), Ok(i32::MAX));
    assert_eq!(DurationH264::new(i64::from(i32::MIN)).as_i32(), Ok(i32::MIN));
    assert!(DurationH264::new(i64::from(i32::MAX) + 1).as_i32().is_err());
    assert!(DurationH264::new(i64::from(i32::MIN) - 1).as_i32().is_err());
    assert_eq!(DurationH264::new(-5).as_i32(), Ok(-5));
    assert_eq!(DurationH264::new(0).as_u32(), Ok(0));
    assert_eq!(DurationH264::new(i64::from(u32::MAX)).as_u32(), Ok(u32::MAX));
    assert!(DurationH264::new(i64::from(u32::MAX) + 1).as_u32().is_err());
    assert!(DurationH264::new(-1).as_u32().is_err());
}

#[test]
fn duration_h264_as_millis_and_nanos() {
    assert_eq!(DurationH264::new(90).as_millis(), 1);
    assert_eq!(DurationH264::new(90_000).as_millis(), 1_000);
    assert_eq!(DurationH264::new(-135).as_millis(), -1);
    assert_eq!(DurationH264::new(45).as_nanos(), 500_000);
    assert_eq!(DurationH264::new(1).as_nanos(), 11_111);
    assert_eq!(DurationH264::new(-90_001).as_nanos(), -1_000_011_111);
}

#[test]
fn duration_h264_from_impls() {
    assert_eq!(DurationH264::from(-3i32), DurationH264::new(-3));
    assert_eq!(DurationH264::from(u32::MAX), DurationH264::new(4_294_967_295));
    assert_eq!(DurationH264::from(12i64), DurationH264::new(12));
    assert_eq!(DurationH264::from(UnixH264::from(77)), DurationH264::new(77));
    assert!(DurationH264::new(1) < DurationH264::new(2));
}
