use ledgerkit::redact::{redact_card, redact_email, RedactedValue};

#[test]
fn test_redact_card() {
    assert_eq!(redact_card("4111111111111111"), "****1111");
    assert_eq!(redact_card("12"), "****");
}

#[test]
fn test_redact_email() {
    assert_eq!(redact_email("user@example.com"), "***@example.com");
}

#[test]
fn test_redacted_value_display() {
    let secret = RedactedValue::new("my_api_key");
    assert_eq!(secret.to_string(), "[REDACTED]");
    assert_eq!(secret.to_debug_string(), "[REDACTED]");
    assert_eq!(*secret.as_ref(), "my_api_key");
}

#[test]
fn redact_card_of_exactly_four_digits_shows_them() {
    assert_eq!(redact_card("1234"), "****1234");
    assert_eq!(redact_card(""), "****");
}

#[test]
fn redact_email_without_at_sign() {
    assert_eq!(redact_email("nobody"), "***");
    assert_eq!(redact_email("a@b@c"), "***@b@c");
    assert_eq!(redact_email("@x"), "***@x");
}

#[test]
fn redacted_value_gives_its_value_back() {
    let secret = RedactedValue::new(42u32);
    assert_eq!(secret.clone().into_inner(), 42);
    assert_eq!(secret.to_string(), "[REDACTED]");
}
