use ledgerkit::error::{ErrorCategory, LkError};
use ledgerkit::event::{CanonicalEvent, EventKind};
use ledgerkit::payment::{PaymentId, PaymentState};
use ledgerkit::provider::ProviderId;
use ledgerkit::currency::Currency;
use ledgerkit::money::Money;

const ALL_STATES: [PaymentState; 11] = [
    PaymentState::Created,
    PaymentState::Processing,
    PaymentState::Authorized,
    PaymentState::Captured,
    PaymentState::PartiallyCaptured,
    PaymentState::Failed,
    PaymentState::Cancelled,
    PaymentState::Refunded,
    PaymentState::PartiallyRefunded,
    PaymentState::Disputed,
    PaymentState::Expired,
];

#[test]
fn transitions_follow_the_table() {
    assert_eq!(
        PaymentState::Created.valid_transitions(),
        vec![PaymentState::Processing, PaymentState::Cancelled, PaymentState::Expired]
    );
    assert_eq!(
        PaymentState::Disputed.valid_transitions(),
        vec![PaymentState::Refunded, PaymentState::Captured]
    );
    assert!(PaymentState::Authorized.can_transition_to(PaymentState::PartiallyCaptured));
    assert!(!PaymentState::Authorized.can_transition_to(PaymentState::Refunded));
    assert!(PaymentState::Captured.can_transition_to(PaymentState::Disputed));
    assert!(!PaymentState::Refunded.can_transition_to(PaymentState::Captured));
}

#[test]
fn closed_states_have_no_exit_and_nothing_returns_to_created() {
    for s in ALL_STATES {
        assert!(!s.can_transition_to(s));
        assert!(!s.can_transition_to(PaymentState::Created));
        for n in ALL_STATES {
            assert_eq!(s.can_transition_to(n), s.valid_transitions().contains(&n));
        }
    }
    for s in [PaymentState::Failed, PaymentState::Cancelled, PaymentState::Expired, PaymentState::Refunded] {
        assert!(s.is_terminal());
        assert!(s.valid_transitions().is_empty());
    }
    assert!(PaymentState::Captured.is_terminal());
    assert!(!PaymentState::Captured.valid_transitions().is_empty());
    assert!(!PaymentState::Disputed.is_terminal());
}

#[test]
fn error_retryability_and_messages() {
    assert!(ErrorCategory::RateLimited.is_retryable());
    assert!(!ErrorCategory::Declined.is_retryable());
    assert!(LkError::provider(ErrorCategory::NetworkError, "down".to_string()).is_retryable());
    assert!(!LkError::provider(ErrorCategory::CardExpired, "old".to_string()).is_retryable());
    assert!(LkError::Timeout { duration_ms: 5 }.is_retryable());
    assert!(LkError::Internal("x".to_string()).is_retryable());
    assert!(!LkError::Validation("x".to_string()).is_retryable());
    assert_eq!(
        LkError::provider(ErrorCategory::InsufficientFunds, "no money".to_string()).to_string(),
        "provider error: insufficient_funds - no money"
    );
    assert_eq!(LkError::Timeout { duration_ms: 1500 }.to_string(), "timeout after 1500ms");
    assert_eq!(
        LkError::InvalidStateTransition { from: PaymentState::Created, to: PaymentState::Refunded }
            .to_string(),
        "invalid state transition from Created to Refunded"
    );
    assert_eq!(
        LkError::NotFound { entity: "payment".to_string(), id: "p1".to_string() }.to_string(),
        "not found: payment p1"
    );
    assert_eq!(
        LkError::IdempotencyConflict { key: "k".to_string() }.to_string(),
        "idempotency conflict: key=k"
    );
    assert_eq!(ErrorCategory::ProviderUnavailable.to_string(), "provider_unavailable");
}

#[test]
fn event_kinds_map_to_states() {
    assert_eq!(EventKind::PaymentCaptured.to_payment_state(), Some(PaymentState::Captured));
    assert_eq!(
        EventKind::PaymentPartiallyRefunded.to_payment_state(),
        Some(PaymentState::PartiallyRefunded)
    );
    assert_eq!(EventKind::ChargebackOpened.to_payment_state(), None);
    assert_eq!(EventKind::RetryExhausted.to_payment_state(), None);
    assert_eq!(EventKind::PaymentPartiallyRefunded.to_string(), "payment_partially_refunded");
    assert_eq!(EventKind::WebhookVerified.to_string(), "webhook_verified");
}

#[test]
fn canonical_event_builders() {
    let e = CanonicalEvent::new(EventKind::PaymentCreated)
        .with_payment_id(PaymentId::from_str("pay_1"))
        .with_provider(ProviderId::new("mock"))
        .with_amount(Money::new(10, Currency::GBP))
        .with_correlation_id("corr".to_string())
        .with_raw_payload("{}".to_string());
    assert_eq!(e.kind, EventKind::PaymentCreated);
    assert_eq!(e.payment_id, Some(PaymentId::from_str("pay_1")));
    assert_eq!(e.provider_id, Some(ProviderId::new("mock")));
    assert_eq!(e.amount, Some(Money::new(10, Currency::GBP)));
    assert_eq!(e.correlation_id, "corr");
    assert_eq!(e.raw_payload.as_deref(), Some("{}"));
    assert_eq!(e.metadata, "null");
    assert_eq!(e.event_id.len(), 36);
    assert_eq!(e.occurred_at, e.received_at);
    let copy = e.duplicate();
    assert_eq!(copy.event_id, e.event_id);
    assert_eq!(copy.payment_id, e.payment_id);
}

#[test]
fn payment_ids() {
    assert_eq!(PaymentId::from_str("p").to_string(), "p");
    assert_eq!(PaymentId::new().to_string().len(), 36);
    assert_ne!(PaymentId::new(), PaymentId::new());
    assert_eq!(ProviderId::new("stripe").to_string(), "stripe");
}
