use ledgerkit::event::{CanonicalEvent, EventKind};
use ledgerkit::idempotency::{IdempotencyStatus, InMemoryIdempotencyStore};
use ledgerkit::processor::{
    after_parse, after_replay_check, completion_response, rejected, AfterVerification,
    ProcessResult, ProcessorError, WebhookProcessor, REPLAY_TTL_SECS,
};
use ledgerkit::time::UtcTime;
use ledgerkit::webhook::{HeaderMap, RawWebhook, VerificationResult, WebhookId};

fn at(secs: i64) -> UtcTime {
    UtcTime::from_unix(secs, 0).unwrap()
}

fn webhook(id: &str, received: i64) -> RawWebhook {
    RawWebhook {
        id: WebhookId::from_str(id),
        headers: HeaderMap::new(),
        body: "{}".to_string(),
        received_at: at(received),
        source_ip: None,
    }
}

#[test]
fn verification_step() {
    let p = WebhookProcessor::new((), ());
    let wh = webhook("wh_1", 1_000);
    match p.after_verification(&wh, &at(1_000), Ok(VerificationResult::Valid)) {
        Ok(AfterVerification::CheckReplay { key }) => assert_eq!(key, "webhook:wh_1"),
        _ => panic!("expected replay check"),
    }
    match p.after_verification(&wh, &at(1_300), Ok(VerificationResult::Skipped { reason: "dev".to_string() })) {
        Ok(AfterVerification::CheckReplay { .. }) => {}
        _ => panic!("skipped webhooks within the tolerance go on"),
    }
    let bad = VerificationResult::Invalid { reason: "bad".to_string() };
    match p.after_verification(&wh, &at(1_000), Ok(bad.clone())) {
        Ok(AfterVerification::Reject(r)) => assert!(matches!(rejected(r), ProcessResult::Rejected { result } if result == bad)),
        _ => panic!("expected rejection"),
    }
    match p.after_verification(&wh, &at(1_000), Err("boom".to_string())) {
        Err(e) => assert_eq!(e.to_string(), "verification failed: boom"),
        Ok(_) => panic!("expected error"),
    }
}

#[test]
fn verification_step_checks_the_timestamp() {
    let p = WebhookProcessor::new((), ());
    let wh = webhook("wh_t", 1_000);
    match p.after_verification(&wh, &at(1_301), Ok(VerificationResult::Valid)) {
        Ok(AfterVerification::Reject(VerificationResult::TimestampExpired { received, tolerance_secs })) => {
            assert_eq!(tolerance_secs, 300);
            assert_eq!(received, at(1_000).to_rfc3339());
        }
        _ => panic!("expected an expired timestamp"),
    }
    match p.after_verification(&wh, &at(699), Ok(VerificationResult::Valid)) {
        Ok(AfterVerification::Reject(VerificationResult::TimestampExpired { .. })) => {}
        _ => panic!("a timestamp from the future is held to the tolerance too"),
    }
    let wide = WebhookProcessor::new((), ()).with_timestamp_tolerance(3_600);
    assert!(matches!(
        wide.after_verification(&wh, &at(1_301), Ok(VerificationResult::Valid)),
        Ok(AfterVerification::CheckReplay { .. })
    ));
    let fresh = RawWebhook::new(HeaderMap::new(), String::new());
    assert!(matches!(
        p.after_verification_now(&fresh, Ok(VerificationResult::Valid)),
        Ok(AfterVerification::CheckReplay { .. })
    ));
}

#[test]
fn processing_is_at_most_once() {
    let mut p = WebhookProcessor::new((), InMemoryIdempotencyStore::new());
    let wh = webhook("wh_9", 5_000);
    let mut calls = 0;
    let first = p.process_at(&wh, &at(5_000), Ok(VerificationResult::Valid), |w: &RawWebhook| {
        calls += 1;
        assert_eq!(w.id.to_string(), "wh_9");
        let mut e = CanonicalEvent::new(EventKind::PaymentCaptured);
        e.event_id = "evt_\"1\"".to_string();
        Ok(e)
    });
    match first {
        Ok(ProcessResult::Processed(e)) => assert_eq!(e.event_id, "evt_\"1\""),
        _ => panic!("expected processed"),
    }
    let rec = p.store().get("webhook:wh_9").unwrap().unwrap();
    assert_eq!(rec.status, IdempotencyStatus::Completed);
    assert_eq!(rec.response.as_deref(), Some(r#"{"event_id":"evt_\"1\""}"#));
    assert_eq!(rec.expires_at.timestamp(), 5_000 + 86_400);

    let second = p.process_at(&wh, &at(5_100), Ok(VerificationResult::Valid), |_: &RawWebhook| {
        calls += 1;
        Err("must not be called".to_string())
    });
    match second {
        Ok(ProcessResult::Duplicate { original_id }) => assert_eq!(original_id, "webhook:wh_9"),
        _ => panic!("expected duplicate"),
    }
    assert_eq!(calls, 1);
}

#[test]
fn processing_failures() {
    let mut p = WebhookProcessor::new((), InMemoryIdempotencyStore::new());
    let wh = webhook("wh_e", 10);
    let parsed = p.process_at(&wh, &at(10), Ok(VerificationResult::Valid), |_: &RawWebhook| Err("no json".to_string()));
    match parsed {
        Err(e) => assert_eq!(e.to_string(), "event parsing failed: no json"),
        Ok(_) => panic!("expected a parsing error"),
    }
    assert_eq!(p.store().get("webhook:wh_e").unwrap().unwrap().status, IdempotencyStatus::InProgress);
    let late = p.process_at(&webhook("wh_l", 10), &at(10_000), Ok(VerificationResult::Valid), |_: &RawWebhook| {
        Err("unreached".to_string())
    });
    assert!(matches!(late, Ok(ProcessResult::Rejected { result: VerificationResult::TimestampExpired { .. } })));
    assert!(p.store().get("webhook:wh_l").unwrap().is_none());
    let refused = p.process_at(&webhook("wh_r", 10), &at(10), Err("bad key".to_string()), |_: &RawWebhook| {
        Err("unreached".to_string())
    });
    assert!(matches!(refused, Err(ProcessorError::Verification(_))));
    let end = ledgerkit::time::MAX_UNIX_SECS - 10;
    let near_end = p.process_at(&webhook("wh_x", end), &at(end), Ok(VerificationResult::Valid), |_: &RawWebhook| {
        Err("unreached".to_string())
    });
    match near_end {
        Err(e) => assert_eq!(e.to_string(), "idempotency check failed: expiry time out of range"),
        Ok(_) => panic!("expected an idempotency error"),
    }
}

#[test]
fn completion_response_is_json() {
    let mut e = CanonicalEvent::new(EventKind::PaymentCreated);
    e.event_id = "a\\b\n\u{1}".to_string();
    assert_eq!(completion_response(&e), r#"{"event_id":"a\\b\n\u0001"}"#);
}

#[test]
fn replay_and_parse_steps() {
    let mut store = InMemoryIdempotencyStore::new();
    let t = UtcTime::from_unix(1_000, 0).unwrap();
    let first = store.try_acquire_at("webhook:wh_2", REPLAY_TTL_SECS, &t);
    assert!(matches!(after_replay_check(Ok(first)), Ok(None)));
    let second = store.try_acquire_at("webhook:wh_2", REPLAY_TTL_SECS, &t);
    match after_replay_check(Ok(second)) {
        Ok(Some(ProcessResult::Duplicate { original_id })) => assert_eq!(original_id, "webhook:wh_2"),
        _ => panic!("expected duplicate"),
    }
    assert!(matches!(after_replay_check(Err("x".to_string())), Err(ProcessorError::Idempotency(_))));
    match after_parse(Ok(CanonicalEvent::new(EventKind::PaymentRefunded))) {
        Ok(ProcessResult::Processed(e)) => assert_eq!(e.kind, EventKind::PaymentRefunded),
        _ => panic!("expected processed"),
    }
    match after_parse(Err("no json".to_string())) {
        Err(e) => assert_eq!(e.to_string(), "event parsing failed: no json"),
        Ok(_) => panic!("expected error"),
    }
}

#[test]
fn processor_configuration() {
    let p = WebhookProcessor::new(1u8, 2u16);
    assert_eq!(p.timestamp_tolerance_secs(), 300);
    let p = p.with_timestamp_tolerance(30);
    assert_eq!(p.timestamp_tolerance_secs(), 30);
    assert_eq!(*p.signature_verifier(), 1u8);
    assert_eq!(*p.store(), 2u16);
}
