use time_tracker::clock::{
    current_time, timestamp_from_clock_offset, elapsed_seconds, format_clock_time, format_duration, format_signed_duration,
    second_of_day, with_clock_time,
};
use time_tracker::models::{ApiId, Integration, Timestamp, MAX_UNIX_SECONDS, MIN_UNIX_SECONDS};

fn at(secs: i64, nanos: u32) -> Timestamp {
    Timestamp::new(secs, nanos).unwrap()
}

#[test]
fn all_integrations_in_offer_order() {
    assert_eq!(
        Integration::all(),
        vec![Integration::KimaiIntegration, Integration::TogglIntegration]
    );
}

#[test]
fn integration_names() {
    assert_eq!(Integration::TogglIntegration.to_string(), "Toggl Track");
    assert_eq!(Integration::KimaiIntegration.to_string(), "Kimai");
}

#[test]
fn api_id_text() {
    assert_eq!(ApiId::Int(-42).to_string(), "-42");
    assert_eq!(ApiId::Int(0).to_string(), "0");
    assert_eq!(ApiId::Int(i64::MAX).to_string(), "9223372036854775807");
    assert_eq!(ApiId::Int(i64::MIN).to_string(), "-9223372036854775808");
    assert_eq!(ApiId::String("abc".to_string()).to_string(), "abc");
}

#[test]
fn api_id_default_and_equality() {
    assert!(ApiId::default() == ApiId::Int(0));
    assert!(ApiId::Int(3).same_as(&ApiId::Int(3)));
    assert!(!ApiId::Int(3).same_as(&ApiId::String("3".to_string())));
    assert!(ApiId::String("x".to_string()) == ApiId::String("x".to_string()));
    assert!(ApiId::String("x".to_string()) != ApiId::String("y".to_string()));
}

#[test]
fn timestamp_bounds() {
    assert!(Timestamp::new(0, 0).is_some());
    assert!(Timestamp::new(0, 999_999_999).is_some());
    assert!(Timestamp::new(0, 1_000_000_000).is_none());
    assert!(Timestamp::new(MAX_UNIX_SECONDS, 0).is_some());
    assert!(Timestamp::new(MAX_UNIX_SECONDS + 1, 0).is_none());
    assert!(Timestamp::new(MIN_UNIX_SECONDS, 0).is_some());
    assert!(Timestamp::new(MIN_UNIX_SECONDS - 1, 0).is_none());
    let t = at(-5, 7);
    assert_eq!(t.secs(), -5);
    assert_eq!(t.nanos(), 7);
}

#[test]
fn stopwatch_reading_below_and_above_an_hour() {
    assert_eq!(format_duration(0), "00:00");
    assert_eq!(format_duration(65), "01:05");
    assert_eq!(format_duration(3599), "59:59");
    assert_eq!(format_duration(3600), "1:00:00");
    assert_eq!(format_duration(3725), "1:02:05");
    assert_eq!(format_duration(39599), "10:59:59");
    assert_eq!(format_duration(360_000), "100:00:00");
}

#[test]
fn signed_reading() {
    assert_eq!(format_signed_duration(0), "00:00");
    assert_eq!(format_signed_duration(3725), "1:02:05");
    assert_eq!(format_signed_duration(-65), "-1:-5");
    assert_eq!(format_signed_duration(-3725), "-2:-5");
    assert_eq!(format_signed_duration(-5), "00:-5");
}

#[test]
fn signed_and_stopwatch_readings_agree_on_spans_not_negative() {
    for t in [0u64, 1, 59, 60, 61, 3599, 3600, 3725, 86_399, 360_000] {
        assert_eq!(format_signed_duration(t as i64), format_duration(t));
    }
}

#[test]
fn elapsed_rounds_toward_zero() {
    let later = at(100, 500_000_000);
    let earlier = at(90, 700_000_000);
    assert_eq!(elapsed_seconds(&later, &earlier), 9);
    assert_eq!(elapsed_seconds(&earlier, &later), -9);
    assert_eq!(elapsed_seconds(&later, &later), 0);
    assert_eq!(elapsed_seconds(&at(10, 0), &at(0, 1)), 9);
    assert_eq!(elapsed_seconds(&at(10, 1), &at(0, 0)), 10);
}

#[test]
fn elapsed_is_antisymmetric_on_examples() {
    let pairs = [(at(5, 3), at(-7, 999)), (at(0, 0), at(0, 1)), (at(86_400, 0), at(1, 999_999_999))];
    for (a, b) in pairs {
        assert_eq!(elapsed_seconds(&a, &b), -elapsed_seconds(&b, &a));
    }
}

#[test]
fn clock_time_of_day() {
    let t = at(1_700_000_000, 0);
    assert_eq!(second_of_day(&t), 80_000);
    assert_eq!(format_clock_time(&t), "22:13");
    assert_eq!(format_clock_time(&at(-1, 0)), "23:59");
    assert_eq!(format_clock_time(&at(0, 0)), "00:00");
    assert_eq!(second_of_day(&at(-86_400, 0)), 0);
}

#[test]
fn moving_to_a_clock_time_keeps_the_day() {
    let t = at(1_700_000_000, 123);
    let moved = with_clock_time(&t, 9, 30);
    assert_eq!(moved.secs(), 1_699_954_200);
    assert_eq!(moved.nanos(), 0);
    assert_eq!(format_clock_time(&moved), "09:30");
    let before_epoch = with_clock_time(&at(-1, 0), 0, 0);
    assert_eq!(before_epoch.secs(), -86_400);
}

#[test]
fn current_time_is_readable() {
    let now = current_time().unwrap();
    assert!(now.secs() > 1_600_000_000);
}

#[test]
fn clock_readings_before_and_after_the_epoch() {
    assert_eq!(timestamp_from_clock_offset(false, 5, 7), Some(at(5, 7)));
    assert_eq!(timestamp_from_clock_offset(true, 5, 0), Some(at(-5, 0)));
    assert_eq!(timestamp_from_clock_offset(true, 5, 250_000_000), Some(at(-6, 750_000_000)));
    assert_eq!(timestamp_from_clock_offset(true, 0, 1), Some(at(-1, 999_999_999)));
    assert_eq!(timestamp_from_clock_offset(false, MAX_UNIX_SECONDS as u64, 999_999_999), Some(at(MAX_UNIX_SECONDS, 999_999_999)));
    assert_eq!(timestamp_from_clock_offset(false, MAX_UNIX_SECONDS as u64 + 1, 0), None);
    assert_eq!(timestamp_from_clock_offset(true, MIN_UNIX_SECONDS.unsigned_abs(), 0), Some(at(MIN_UNIX_SECONDS, 0)));
    assert_eq!(timestamp_from_clock_offset(true, MIN_UNIX_SECONDS.unsigned_abs(), 1), None);
}

#[test]
fn timestamp_range_is_chronos() {
    assert_eq!(MIN_UNIX_SECONDS, -8_334_601_228_800);
    assert_eq!(MAX_UNIX_SECONDS, 8_210_266_876_799);
    assert_eq!(format_clock_time(&at(MIN_UNIX_SECONDS, 0)), "00:00");
    assert_eq!(format_clock_time(&at(MAX_UNIX_SECONDS, 0)), "23:59");
}
