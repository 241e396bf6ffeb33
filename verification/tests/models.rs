use nexus_core::models::{clamp_timestamp, Date, MAX_TIMESTAMP};

#[test]
fn leap_day_is_valid_only_in_leap_years() {
    assert!(Date { year: 2024, month: 2, day: 29 }.is_valid());
    assert!(!Date { year: 2023, month: 2, day: 29 }.is_valid());
    assert!(!Date { year: 1900, month: 2, day: 29 }.is_valid());
    assert!(Date { year: 2000, month: 2, day: 29 }.is_valid());
}

#[test]
fn month_lengths_are_enforced() {
    assert!(Date { year: 2021, month: 4, day: 30 }.is_valid());
    assert!(!Date { year: 2021, month: 4, day: 31 }.is_valid());
    assert!(Date { year: 2021, month: 12, day: 31 }.is_valid());
    assert!(!Date { year: 2021, month: 13, day: 1 }.is_valid());
    assert!(!Date { year: 2021, month: 0, day: 1 }.is_valid());
    assert!(!Date { year: 2021, month: 1, day: 0 }.is_valid());
    assert!(!Date { year: 10000, month: 1, day: 1 }.is_valid());
    assert!(Date { year: 0, month: 1, day: 1 }.is_valid());
}

#[test]
fn clamp_timestamp_keeps_in_range_values() {
    assert_eq!(clamp_timestamp(0), 0);
    assert_eq!(clamp_timestamp(1_700_000_000), 1_700_000_000);
    assert_eq!(clamp_timestamp(MAX_TIMESTAMP), MAX_TIMESTAMP);
}

#[test]
fn clamp_timestamp_clamps_out_of_range_values() {
    assert_eq!(clamp_timestamp(-1), 0);
    assert_eq!(clamp_timestamp(i64::MIN), 0);
    assert_eq!(clamp_timestamp(MAX_TIMESTAMP + 1), MAX_TIMESTAMP);
    assert_eq!(clamp_timestamp(i64::MAX), MAX_TIMESTAMP);
}
