use freepps::timestamp::{get_month_day_from_year_day, get_timestamp, is_leap_year};

#[test]
fn epoch_in_utc() {
    assert_eq!(get_timestamp(0, 0, 0), "1970-01-01 00:00:00.000");
}

#[test]
fn shanghai_time() {
    assert_eq!(get_timestamp(1_700_000_000, 42, 8 * 3600), "2023-11-15 06:13:20.042");
    assert_eq!(get_timestamp(1_700_000_000, 999, 0), "2023-11-14 22:13:20.999");
}

#[test]
fn leap_day() {
    assert_eq!(get_timestamp(1_709_164_800, 5, 0), "2024-02-29 00:00:00.005");
    assert_eq!(get_timestamp(1_709_251_199, 0, 0), "2024-02-29 23:59:59.000");
    assert_eq!(get_timestamp(951_782_400, 0, 0), "2000-02-29 00:00:00.000");
}

#[test]
fn negative_offset_and_clamp() {
    assert_eq!(get_timestamp(3600, 0, -7200), "1970-01-01 00:00:00.000");
    assert_eq!(get_timestamp(86_400, 0, -3600), "1970-01-01 23:00:00.000");
}

#[test]
fn leap_years() {
    assert!(is_leap_year(2000));
    assert!(is_leap_year(2024));
    assert!(!is_leap_year(1900));
    assert!(!is_leap_year(2023));
}

#[test]
fn month_and_day() {
    assert_eq!(get_month_day_from_year_day(2024, 0), (1, 1));
    assert_eq!(get_month_day_from_year_day(2024, 59), (2, 29));
    assert_eq!(get_month_day_from_year_day(2023, 59), (3, 1));
    assert_eq!(get_month_day_from_year_day(2023, 364), (12, 31));
    assert_eq!(get_month_day_from_year_day(2024, 365), (12, 31));
    assert_eq!(get_month_day_from_year_day(2023, 400), (12, 31));
}
