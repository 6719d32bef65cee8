use ledgerkit::webhook::{HeaderMap, RawWebhook, VerificationResult, WebhookId};

#[test]
fn header_lookup_is_case_insensitive() {
    let mut headers = HeaderMap::new();
    headers.insert("Content-Type".to_string(), "application/json".to_string());
    headers.insert("X-Signature".to_string(), "abc".to_string());
    let webhook = RawWebhook::new(headers, String::new());
    assert_eq!(webhook.header("content-type"), Some("application/json"));
    assert_eq!(webhook.header("X-SIGNATURE"), Some("abc"));
    assert_eq!(webhook.header("x-missing"), None);
    assert_eq!(webhook.id.to_string().len(), 36);
    assert!(webhook.source_ip.is_none());
}

#[test]
fn header_insert_replaces_same_name() {
    let mut headers = HeaderMap::new();
    assert_eq!(headers.insert("a".to_string(), "1".to_string()), None);
    assert_eq!(headers.insert("b".to_string(), "2".to_string()), None);
    assert_eq!(headers.insert("a".to_string(), "3".to_string()), Some("1".to_string()));
    assert_eq!(headers.len(), 2);
    assert_eq!(headers.get("A"), Some("3"));
}

#[test]
fn verification_result_predicates() {
    assert!(VerificationResult::Valid.is_valid());
    assert!(!VerificationResult::Valid.is_rejected());
    let invalid = VerificationResult::Invalid { reason: "x".to_string() };
    assert!(invalid.is_rejected() && !invalid.is_valid());
    let expired = VerificationResult::TimestampExpired { received: "t".to_string(), tolerance_secs: 1 };
    assert!(expired.is_rejected());
    let dup = VerificationResult::Duplicate { original_id: "d".to_string() };
    assert!(!dup.is_rejected() && !dup.is_valid());
    let skipped = VerificationResult::Skipped { reason: "s".to_string() };
    assert!(!skipped.is_rejected() && !skipped.is_valid());
}

#[test]
fn webhook_ids() {
    assert_eq!(WebhookId::from_str("wh_1").to_string(), "wh_1");
    assert_ne!(WebhookId::new(), WebhookId::new());
    assert_eq!(WebhookId::default().to_string().len(), 36);
}
