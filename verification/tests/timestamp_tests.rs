use ledgerkit::time::{now, TimeDelta, UtcTime, MAX_UNIX_SECS, MIN_UNIX_SECS};
use ledgerkit::timestamp::TimestampValidator;
use ledgerkit::webhook::VerificationResult;

#[test]
fn test_valid_timestamp() {
    let validator = TimestampValidator::default_tolerance();
    let now = now();
    assert!(validator.validate(&now).is_valid());
}

#[test]
fn test_expired_timestamp() {
    let validator = TimestampValidator::new(60);
    let old = now().checked_add(TimeDelta::seconds(-120).unwrap()).unwrap();
    let result = validator.validate(&old);
    assert!(matches!(result, VerificationResult::TimestampExpired { .. }));
}

#[test]
fn validate_at_fixed_times() {
    let validator = TimestampValidator::new(60);
    let t = UtcTime::from_unix(1_700_000_000, 0).unwrap();
    let in_window = UtcTime::from_unix(1_700_000_060, 999_999_999).unwrap();
    let past_window = UtcTime::from_unix(1_700_000_061, 0).unwrap();
    assert_eq!(validator.validate_at(&t, &in_window), VerificationResult::Valid);
    assert_eq!(
        validator.validate_at(&t, &past_window),
        VerificationResult::TimestampExpired {
            received: "2023-11-14T22:13:20+00:00".to_string(),
            tolerance_secs: 60
        }
    );
    // A timestamp from the future is held to the same tolerance.
    assert!(matches!(
        validator.validate_at(&past_window, &t),
        VerificationResult::TimestampExpired { .. }
    ));
}

#[test]
fn validate_unix_out_of_range() {
    let validator = TimestampValidator::default_tolerance();
    assert_eq!(
        validator.validate_unix(i64::MAX),
        VerificationResult::Invalid { reason: "invalid unix timestamp: 9223372036854775807".to_string() }
    );
    assert_eq!(
        validator.validate_unix(i64::MIN),
        VerificationResult::Invalid { reason: "invalid unix timestamp: -9223372036854775808".to_string() }
    );
    let n = now();
    assert!(validator.validate_unix(n.timestamp()).is_valid());
    assert!(matches!(validator.validate_unix(0), VerificationResult::TimestampExpired { .. }));
}

#[test]
fn time_range_matches_chrono() {
    assert!(chrono::DateTime::from_timestamp(MIN_UNIX_SECS, 0).is_some());
    assert!(chrono::DateTime::from_timestamp(MIN_UNIX_SECS - 1, 0).is_none());
    assert!(chrono::DateTime::from_timestamp(MAX_UNIX_SECS, 0).is_some());
    assert!(chrono::DateTime::from_timestamp(MAX_UNIX_SECS + 1, 0).is_none());
    assert!(UtcTime::from_unix(MIN_UNIX_SECS, 0).is_some());
    assert!(UtcTime::from_unix(MAX_UNIX_SECS + 1, 0).is_none());
    assert!(UtcTime::from_unix(0, 1_000_000_000).is_none());
}

#[test]
fn rfc3339_text_and_spans() {
    let t = UtcTime::from_unix(0, 500_000_000).unwrap();
    assert_eq!(t.to_rfc3339(), "1970-01-01T00:00:00.500+00:00");
    let later = t.checked_add(TimeDelta::seconds(90).unwrap()).unwrap();
    assert_eq!(later.timestamp(), 90);
    assert_eq!(later.timestamp_subsec_nanos(), 500_000_000);
    assert_eq!(later.signed_duration_since(&t).num_seconds(), 90);
    let before = UtcTime::from_unix(-2, 250_000_000).unwrap();
    assert_eq!(before.signed_duration_since(&t).num_seconds(), -2);
    assert!(before.is_before(&t));
    let back = t.checked_add(TimeDelta::seconds(-3).unwrap()).unwrap();
    assert_eq!(back.timestamp(), -3);
    assert_eq!(back.timestamp_subsec_nanos(), 500_000_000);
}
