use chrono::{DateTime, Utc};
use kronkeeper::time::{MAX_TIMESTAMP_MICROS, MICROS_PER_SEC, MIN_TIMESTAMP_MICROS};
use kronkeeper::metrics::{
    record_job_completed, record_job_dispatched, record_job_expired, record_job_failed, record_job_scheduled,
    record_recurring_instance_created, record_webhook_failure,
};
use kronkeeper::text::{chars_of, str_eq, u64_to_decimal};

#[test]
fn text_helpers() {
    assert!(str_eq("abc", "abc"));
    assert!(!str_eq("abc", "abd"));
    assert!(!str_eq("abc", "ab"));
    assert!(str_eq("", ""));
    assert_eq!(u64_to_decimal(0), "0");
    assert_eq!(u64_to_decimal(1234567890), "1234567890");
    assert_eq!(u64_to_decimal(u64::MAX), "18446744073709551615");
    assert_eq!(chars_of("héllo"), vec!['h', 'é', 'l', 'l', 'o']);
}

#[test]
fn counters_accept_increments_without_a_recorder() {
    record_job_scheduled();
    record_job_dispatched();
    record_job_completed();
    record_job_failed();
    record_job_expired();
    record_webhook_failure();
    record_recurring_instance_created();
}

#[test]
fn timestamp_bounds_match_the_calendar_range() {
    assert_eq!(DateTime::<Utc>::MAX_UTC.timestamp_micros(), MAX_TIMESTAMP_MICROS);
    assert_eq!(DateTime::<Utc>::MIN_UTC.timestamp_micros(), MIN_TIMESTAMP_MICROS);
    assert_eq!(MICROS_PER_SEC, 1_000_000);
    assert!(DateTime::<Utc>::from_timestamp_micros(MAX_TIMESTAMP_MICROS + 1).is_none());
    assert!(DateTime::<Utc>::from_timestamp_micros(MIN_TIMESTAMP_MICROS - 1).is_none());
}
