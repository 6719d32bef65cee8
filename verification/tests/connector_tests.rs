use ledgerkit::connector::{AuthorizeRequest, CaptureRequest, RefundRequest};
use ledgerkit::currency::Currency;
use ledgerkit::event::EventKind;
use ledgerkit::mock::{MockConfig, MockConnector, MockConnectorError, MockWebhookPayload};
use ledgerkit::money::Money;
use ledgerkit::payment::{PaymentId, PaymentMethod, PaymentState};
use ledgerkit::provider::ProviderCapability;
use ledgerkit::webhook::{HeaderMap, RawWebhook, VerificationResult};
use ledgerkit::webhook_verifier::WebhookVerifier;

#[test]
fn test_authorize_capture_refund() {
    let mut connector = MockConnector::with_defaults();

    // Authorize
    let auth_req = AuthorizeRequest {
        payment_id: PaymentId::new(),
        amount: Money::new(5000, Currency::USD),
        payment_method: PaymentMethod::Card,
        idempotency_key: None,
        metadata: "null".to_string(),
    };
    let auth_resp = connector.authorize(auth_req).unwrap();
    assert_eq!(auth_resp.authorized_amount.amount, 5000);

    // Capture
    let cap_req = CaptureRequest {
        payment_id: auth_resp.payment_id.clone(),
        provider_reference: auth_resp.provider_reference.clone(),
        amount: None,
        idempotency_key: None,
    };
    let cap_resp = connector.capture(cap_req).unwrap();
    assert_eq!(cap_resp.captured_amount.amount, 5000);

    // Refund
    let ref_req = RefundRequest {
        payment_id: auth_resp.payment_id,
        provider_reference: auth_resp.provider_reference,
        amount: Some(Money::new(2000, Currency::USD)),
        reason: Some("customer request".to_string()),
        idempotency_key: None,
    };
    let ref_resp = connector.refund(ref_req).unwrap();
    assert_eq!(ref_resp.refunded_amount.amount, 2000);
}

#[test]
fn test_declined_authorization() {
    let config = MockConfig {
        authorize_success: false,
        ..Default::default()
    };
    let mut connector = MockConnector::new(config);

    let req = AuthorizeRequest {
        payment_id: PaymentId::new(),
        amount: Money::new(1000, Currency::EUR),
        payment_method: PaymentMethod::Card,
        idempotency_key: None,
        metadata: "null".to_string(),
    };

    let result = connector.authorize(req);
    assert!(result.is_err());
}

#[test]
fn test_webhook_verification() {
    let connector = MockConnector::with_defaults();

    let mut headers = HeaderMap::new();
    headers.insert(
        "x-signature".to_string(),
        "mock_webhook_secret_key".to_string(),
    );

    let webhook = RawWebhook::new(
        headers,
        r#"{"type":"payment.captured","payment_id":"pay_123","amount":5000}"#.to_string(),
    );

    let result = connector.verify(&webhook).unwrap();
    assert!(result.is_valid());
}

#[test]
fn mock_transaction_states() {
    let mut connector = MockConnector::with_defaults();
    let resp = connector
        .authorize(AuthorizeRequest {
            payment_id: PaymentId::from_str("pay_9"),
            amount: Money::new(700, Currency::CAD),
            payment_method: PaymentMethod::Wallet,
            idempotency_key: Some("idem".to_string()),
            metadata: "{}".to_string(),
        })
        .unwrap();
    assert!(resp.provider_reference.starts_with("mock_auth_"));
    assert_eq!(resp.provider_reference.len(), "mock_auth_".len() + 36);
    assert_eq!(resp.payment_id, PaymentId::from_str("pay_9"));
    assert_eq!(resp.raw_response.as_deref(), Some(r#"{"mock":true,"status":"authorized"}"#));
    assert_eq!(connector.get_transaction(&resp.provider_reference), Some(PaymentState::Authorized));

    let cap = connector
        .capture(CaptureRequest {
            payment_id: PaymentId::from_str("pay_9"),
            provider_reference: resp.provider_reference.clone(),
            amount: Some(Money::new(300, Currency::CAD)),
            idempotency_key: None,
        })
        .unwrap();
    assert_eq!(cap.captured_amount, Money::new(300, Currency::CAD));
    assert_eq!(connector.get_transaction(&resp.provider_reference), Some(PaymentState::Captured));

    let refund = connector
        .refund(RefundRequest {
            payment_id: PaymentId::from_str("pay_9"),
            provider_reference: resp.provider_reference.clone(),
            amount: None,
            reason: None,
            idempotency_key: None,
        })
        .unwrap();
    assert_eq!(refund.refunded_amount, Money::new(700, Currency::CAD));
    assert!(refund.refund_reference.starts_with("mock_refund_"));
    assert_eq!(connector.get_transaction(&resp.provider_reference), Some(PaymentState::Refunded));
    assert_eq!(connector.get_transaction("unknown"), None);
}

#[test]
fn mock_errors() {
    let mut connector = MockConnector::with_defaults();
    let missing = connector.capture(CaptureRequest {
        payment_id: PaymentId::from_str("p"),
        provider_reference: "nope".to_string(),
        amount: None,
        idempotency_key: None,
    });
    match missing {
        Err(e) => assert_eq!(e.to_string(), "transaction not found: nope"),
        Ok(_) => panic!("expected not found"),
    }
    let mut failing = MockConnector::new(MockConfig {
        capture_success: false,
        refund_success: false,
        ..Default::default()
    });
    assert!(matches!(
        failing.capture(CaptureRequest {
            payment_id: PaymentId::from_str("p"),
            provider_reference: "r".to_string(),
            amount: None,
            idempotency_key: None,
        }),
        Err(MockConnectorError::CaptureFailed)
    ));
    assert!(matches!(
        failing.refund(RefundRequest {
            payment_id: PaymentId::from_str("p"),
            provider_reference: "r".to_string(),
            amount: None,
            reason: None,
            idempotency_key: None,
        }),
        Err(MockConnectorError::RefundFailed)
    ));
    assert_eq!(MockConnectorError::AuthorizationDeclined.to_string(), "mock authorization declined");
}

#[test]
fn mock_provider_and_capabilities() {
    let connector = MockConnector::with_defaults();
    assert_eq!(connector.provider_id().to_string(), "mock");
    assert_eq!(connector.latency_ms(), 0);
    assert_eq!(
        connector.capabilities(),
        vec![
            ProviderCapability::AuthCapture,
            ProviderCapability::DirectCapture,
            ProviderCapability::Refund,
            ProviderCapability::PartialRefund,
            ProviderCapability::Void,
            ProviderCapability::Webhooks,
        ]
    );
}

#[test]
fn mock_webhook_signature_outcomes() {
    let connector = MockConnector::with_defaults();
    let mut headers = HeaderMap::new();
    headers.insert("X-Signature".to_string(), "wrong".to_string());
    let webhook = RawWebhook::new(headers, String::new());
    assert_eq!(
        connector.verify(&webhook).unwrap(),
        VerificationResult::Invalid { reason: "signature mismatch".to_string() }
    );
    let webhook = RawWebhook::new(HeaderMap::new(), String::new());
    assert_eq!(
        connector.verify(&webhook).unwrap(),
        VerificationResult::Skipped { reason: "no signature header present".to_string() }
    );
}

#[test]
fn mock_parse_webhook() {
    let connector = MockConnector::with_defaults();
    let body = r#"{"type":"payment.captured","payment_id":"pay_123","amount":5000}"#;
    let webhook = RawWebhook::new(HeaderMap::new(), body.to_string());
    let payload = MockWebhookPayload {
        event_type: Some("payment.captured".to_string()),
        payment_id: Some("pay_123".to_string()),
        amount: Some(5000),
    };
    let event = connector.parse_webhook_payload(&webhook, Ok(payload)).unwrap();
    assert_eq!(event.kind, EventKind::PaymentCaptured);
    assert_eq!(event.payment_id, Some(PaymentId::from_str("pay_123")));
    assert_eq!(event.amount, Some(Money::new(5000, Currency::USD)));
    assert_eq!(event.provider_id.unwrap().to_string(), "mock");
    assert_eq!(event.raw_payload.as_deref(), Some(body));

    let unknown = MockWebhookPayload {
        event_type: Some("payment.teleported".to_string()),
        payment_id: None,
        amount: None,
    };
    match connector.parse_webhook_payload(&webhook, Ok(unknown)) {
        Err(e) => assert_eq!(e.to_string(), "invalid webhook payload: unknown event type: payment.teleported"),
        Ok(_) => panic!("expected an error"),
    }
    let untyped = MockWebhookPayload { event_type: None, payment_id: None, amount: None };
    match connector.parse_webhook_payload(&webhook, Ok(untyped)) {
        Err(e) => assert_eq!(e.to_string(), "invalid webhook payload: missing 'type' field"),
        Ok(_) => panic!("expected an error"),
    }
    match connector.parse_webhook_payload(&webhook, Err("expected value".to_string())) {
        Err(MockConnectorError::InvalidWebhook(m)) => assert_eq!(m, "expected value"),
        _ => panic!("expected an error"),
    }
}

#[test]
fn mock_parse_webhook_reads_the_body() {
    let connector = MockConnector::with_defaults();
    let body = r#"{"type":"payment.refunded","payment_id":"pay_7","amount":1200}"#;
    let webhook = RawWebhook::new(HeaderMap::new(), body.to_string());
    let event = connector.parse_webhook(&webhook).unwrap();
    assert_eq!(event.kind, EventKind::PaymentRefunded);
    assert_eq!(event.payment_id, Some(PaymentId::from_str("pay_7")));
    assert_eq!(event.amount, Some(Money::new(1200, Currency::USD)));

    let loose = RawWebhook::new(HeaderMap::new(), r#"{"type":"payment.failed","amount":"12"}"#.to_string());
    let event = connector.parse_webhook(&loose).unwrap();
    assert_eq!(event.kind, EventKind::PaymentFailed);
    assert_eq!(event.payment_id, None);
    assert_eq!(event.amount, None);

    let untyped = RawWebhook::new(HeaderMap::new(), "[1,2]".to_string());
    match connector.parse_webhook(&untyped) {
        Err(e) => assert_eq!(e.to_string(), "invalid webhook payload: missing 'type' field"),
        Ok(_) => panic!("expected an error"),
    }
    let broken = RawWebhook::new(HeaderMap::new(), "not json".to_string());
    match connector.parse_webhook(&broken) {
        Err(MockConnectorError::InvalidWebhook(m)) => assert!(m.starts_with("expected ident")),
        _ => panic!("expected an error"),
    }
}

#[test]
fn mock_partial_refund() {
    let mut connector = MockConnector::with_defaults();
    let auth = connector
        .authorize(AuthorizeRequest {
            payment_id: PaymentId::from_str("pay_p"),
            amount: Money::new(5000, Currency::USD),
            payment_method: PaymentMethod::Card,
            idempotency_key: None,
            metadata: "null".to_string(),
        })
        .unwrap();
    let reference = auth.provider_reference.clone();
    connector
        .capture(CaptureRequest {
            payment_id: PaymentId::from_str("pay_p"),
            provider_reference: reference.clone(),
            amount: None,
            idempotency_key: None,
        })
        .unwrap();
    let refund = connector
        .refund(RefundRequest {
            payment_id: PaymentId::from_str("pay_p"),
            provider_reference: reference.clone(),
            amount: Some(Money::new(2000, Currency::USD)),
            reason: None,
            idempotency_key: None,
        })
        .unwrap();
    assert_eq!(refund.refunded_amount, Money::new(2000, Currency::USD));
    assert_eq!(connector.get_transaction(&reference), Some(PaymentState::PartiallyRefunded));
    connector
        .refund(RefundRequest {
            payment_id: PaymentId::from_str("pay_p"),
            provider_reference: reference.clone(),
            amount: Some(Money::new(5000, Currency::USD)),
            reason: None,
            idempotency_key: None,
        })
        .unwrap();
    assert_eq!(connector.get_transaction(&reference), Some(PaymentState::Refunded));
}

#[test]
fn mock_state_follows_the_last_call() {
    let mut connector = MockConnector::with_defaults();
    let auth = |c: &mut MockConnector, amount: i64| {
        c.authorize(AuthorizeRequest {
            payment_id: PaymentId::from_str("pay_s"),
            amount: Money::new(amount, Currency::USD),
            payment_method: PaymentMethod::Card,
            idempotency_key: None,
            metadata: "null".to_string(),
        })
        .unwrap()
        .provider_reference
    };
    let a = auth(&mut connector, 900);
    let b = auth(&mut connector, 400);
    assert_eq!(connector.get_transaction(&a), Some(PaymentState::Authorized));
    connector
        .capture(CaptureRequest {
            payment_id: PaymentId::from_str("pay_s"),
            provider_reference: a.clone(),
            amount: None,
            idempotency_key: None,
        })
        .unwrap();
    assert_eq!(connector.get_transaction(&a), Some(PaymentState::Captured));
    assert_eq!(connector.get_transaction(&b), Some(PaymentState::Authorized));
    connector
        .refund(RefundRequest {
            payment_id: PaymentId::from_str("pay_s"),
            provider_reference: a.clone(),
            amount: None,
            reason: None,
            idempotency_key: None,
        })
        .unwrap();
    assert_eq!(connector.get_transaction(&a), Some(PaymentState::Refunded));
    // A capture after the refund is the last call, and decides the state.
    connector
        .capture(CaptureRequest {
            payment_id: PaymentId::from_str("pay_s"),
            provider_reference: a.clone(),
            amount: None,
            idempotency_key: None,
        })
        .unwrap();
    assert_eq!(connector.get_transaction(&a), Some(PaymentState::Captured));
    assert_eq!(connector.get_transaction("mock_auth_unknown"), None);
}
