//! Canonical payment events.

use vstd::prelude::*;
use crate::money::Money;
use crate::payment::{new_uuid_text, PaymentId, PaymentState, UUID_TEXT_LEN};
use crate::provider::ProviderId;
use crate::time::{now, UtcTime};

verus! {

/// Canonical event types for the payment lifecycle.
#[derive(Debug, Clone, Copy, PartialEq, Eq, Hash, Structural)]
pub enum EventKind {
    // Payment events
    PaymentCreated,
    PaymentProcessing,
    PaymentAuthorized,
    PaymentCaptured,
    PaymentFailed,
    PaymentCancelled,
    PaymentRefunded,
    PaymentPartiallyRefunded,
    PaymentExpired,
    // Payout events
    PayoutCreated,
    PayoutSent,
    PayoutFailed,
    PayoutCompleted,
    // Dispute events
    ChargebackOpened,
    ChargebackWon,
    ChargebackLost,
    ChargebackClosed,
    // Webhook events
    WebhookReceived,
    WebhookVerified,
    WebhookRejected,
    // System events
    ConnectorError,
    RetryScheduled,
    RetryExhausted,
}

impl EventKind {
    /// The payment state that a payment event reports; `None` for events
    /// that are not about a payment's state.
    pub open spec fn spec_payment_state(self) -> Option<PaymentState> {
        match self {
            EventKind::PaymentCreated => Some(PaymentState::Created),
            EventKind::PaymentProcessing => Some(PaymentState::Processing),
            EventKind::PaymentAuthorized => Some(PaymentState::Authorized),
            EventKind::PaymentCaptured => Some(PaymentState::Captured),
            EventKind::PaymentFailed => Some(PaymentState::Failed),
            EventKind::PaymentCancelled => Some(PaymentState::Cancelled),
            EventKind::PaymentRefunded => Some(PaymentState::Refunded),
            EventKind::PaymentPartiallyRefunded => Some(PaymentState::PartiallyRefunded),
            EventKind::PaymentExpired => Some(PaymentState::Expired),
            _ => None,
        }
    }

    /// The snake-case name under which the kind is written.
    pub open spec fn name(self) -> Seq<char> {
        match self {
            EventKind::PaymentCreated => "payment_created"@,
            EventKind::PaymentProcessing => "payment_processing"@,
            EventKind::PaymentAuthorized => "payment_authorized"@,
            EventKind::PaymentCaptured => "payment_captured"@,
            EventKind::PaymentFailed => "payment_failed"@,
            EventKind::PaymentCancelled => "payment_cancelled"@,
            EventKind::PaymentRefunded => "payment_refunded"@,
            EventKind::PaymentPartiallyRefunded => "payment_partially_refunded"@,
            EventKind::PaymentExpired => "payment_expired"@,
            EventKind::PayoutCreated => "payout_created"@,
            EventKind::PayoutSent => "payout_sent"@,
            EventKind::PayoutFailed => "payout_failed"@,
            EventKind::PayoutCompleted => "payout_completed"@,
            EventKind::ChargebackOpened => "chargeback_opened"@,
            EventKind::ChargebackWon => "chargeback_won"@,
            EventKind::ChargebackLost => "chargeback_lost"@,
            EventKind::ChargebackClosed => "chargeback_closed"@,
            EventKind::WebhookReceived => "webhook_received"@,
            EventKind::WebhookVerified => "webhook_verified"@,
            EventKind::WebhookRejected => "webhook_rejected"@,
            EventKind::ConnectorError => "connector_error"@,
            EventKind::RetryScheduled => "retry_scheduled"@,
            EventKind::RetryExhausted => "retry_exhausted"@,
        }
    }

    /// Returns the corresponding payment state, if applicable.
    pub fn to_payment_state(&self) -> (r: Option<PaymentState>)
        ensures
            r == self.spec_payment_state(),
    {
        match self {
            EventKind::PaymentCreated => Some(PaymentState::Created),
            EventKind::PaymentProcessing => Some(PaymentState::Processing),
            EventKind::PaymentAuthorized => Some(PaymentState::Authorized),
            EventKind::PaymentCaptured => Some(PaymentState::Captured),
            EventKind::PaymentFailed => Some(PaymentState::Failed),
            EventKind::PaymentCancelled => Some(PaymentState::Cancelled),
            EventKind::PaymentRefunded => Some(PaymentState::Refunded),
            EventKind::PaymentPartiallyRefunded => Some(PaymentState::PartiallyRefunded),
            EventKind::PaymentExpired => Some(PaymentState::Expired),
            _ => None,
        }
    }

    /// The kind's snake-case name (what the kind displays as).
    pub fn to_string(&self) -> (r: String)
        ensures
            r@ == self.name(),
    {
        match self {
            EventKind::PaymentCreated => String::from_str("payment_created"),
            EventKind::PaymentProcessing => String::from_str("payment_processing"),
            EventKind::PaymentAuthorized => String::from_str("payment_authorized"),
            EventKind::PaymentCaptured => String::from_str("payment_captured"),
            EventKind::PaymentFailed => String::from_str("payment_failed"),
            EventKind::PaymentCancelled => String::from_str("payment_cancelled"),
            EventKind::PaymentRefunded => String::from_str("payment_refunded"),
            EventKind::PaymentPartiallyRefunded => String::from_str("payment_partially_refunded"),
            EventKind::PaymentExpired => String::from_str("payment_expired"),
            EventKind::PayoutCreated => String::from_str("payout_created"),
            EventKind::PayoutSent => String::from_str("payout_sent"),
            EventKind::PayoutFailed => String::from_str("payout_failed"),
            EventKind::PayoutCompleted => String::from_str("payout_completed"),
            EventKind::ChargebackOpened => String::from_str("chargeback_opened"),
            EventKind::ChargebackWon => String::from_str("chargeback_won"),
            EventKind::ChargebackLost => String::from_str("chargeback_lost"),
            EventKind::ChargebackClosed => String::from_str("chargeback_closed"),
            EventKind::WebhookReceived => String::from_str("webhook_received"),
            EventKind::WebhookVerified => String::from_str("webhook_verified"),
            EventKind::WebhookRejected => String::from_str("webhook_rejected"),
            EventKind::ConnectorError => String::from_str("connector_error"),
            EventKind::RetryScheduled => String::from_str("retry_scheduled"),
            EventKind::RetryExhausted => String::from_str("retry_exhausted"),
        }
    }
}

/// Distinct payment events report distinct payment states.
pub proof fn law_payment_state_of_event_is_injective(a: EventKind, b: EventKind)
    requires
        a.spec_payment_state() is Some,
        a.spec_payment_state() == b.spec_payment_state(),
    ensures
        a == b,
{
}

/// A canonical payment event that normalizes data from any provider.
#[derive(Debug, Clone)]
pub struct CanonicalEvent {
    /// Unique event ID
    pub event_id: String,
    /// Type of event
    pub kind: EventKind,
    /// Associated payment ID
    pub payment_id: Option<PaymentId>,
    /// Provider that originated the event
    pub provider_id: Option<ProviderId>,
    /// Provider's reference for this event
    pub provider_event_id: Option<String>,
    /// Amount associated with the event (e.g., refund amount)
    pub amount: Option<Money>,
    /// When the event occurred at the provider
    pub occurred_at: UtcTime,
    /// When we received/processed the event
    pub received_at: UtcTime,
    /// Correlation ID for tracing
    pub correlation_id: String,
    /// Additional structured data, as JSON text
    pub metadata: String,
    /// Raw provider payload (for debugging), as JSON text
    pub raw_payload: Option<String>,
}

/// Option of identifiers, read as text.
pub open spec fn opt_payment_id(o: Option<PaymentId>) -> Option<Seq<char>> {
    match o {
        Some(p) => Some(p@),
        None => None,
    }
}

pub open spec fn opt_provider_id(o: Option<ProviderId>) -> Option<Seq<char>> {
    match o {
        Some(p) => Some(p@),
        None => None,
    }
}

pub open spec fn opt_text(o: Option<String>) -> Option<Seq<char>> {
    match o {
        Some(s) => Some(s@),
        None => None,
    }
}

impl CanonicalEvent {
    /// What a copy keeps: every field, the text ones read as text.
    pub open spec fn same_as(&self, other: &CanonicalEvent) -> bool {
        &&& self.event_id@ == other.event_id@
        &&& self.kind == other.kind
        &&& opt_payment_id(self.payment_id) == opt_payment_id(other.payment_id)
        &&& opt_provider_id(self.provider_id) == opt_provider_id(other.provider_id)
        &&& opt_text(self.provider_event_id) == opt_text(other.provider_event_id)
        &&& self.amount == other.amount
        &&& self.occurred_at == other.occurred_at
        &&& self.received_at == other.received_at
        &&& self.correlation_id@ == other.correlation_id@
        &&& self.metadata@ == other.metadata@
        &&& opt_text(self.raw_payload) == opt_text(other.raw_payload)
    }

    /// Create a new event with generated IDs: fresh random event and
    /// correlation identifiers, the current time as both occurrence and
    /// receipt time, null metadata and no optional data.
    pub fn new(kind: EventKind) -> (r: Self)
        ensures
            r.kind == kind,
            r.event_id@.len() == UUID_TEXT_LEN,
            r.correlation_id@.len() == UUID_TEXT_LEN,
            r.payment_id is None,
            r.provider_id is None,
            r.provider_event_id is None,
            r.amount is None,
            r.occurred_at == r.received_at,
            r.metadata@ == "null"@,
            r.raw_payload is None,
    {
        let now = now();
        Self {
            event_id: new_uuid_text(),
            kind,
            payment_id: None,
            provider_id: None,
            provider_event_id: None,
            amount: None,
            occurred_at: now,
            received_at: now,
            correlation_id: new_uuid_text(),
            metadata: String::from_str("null"),
            raw_payload: None,
        }
    }

    /// Builder: set payment ID.
    pub fn with_payment_id(self, id: PaymentId) -> (r: Self)
        ensures
            r == (CanonicalEvent { payment_id: Some(id), ..self }),
    {
        let mut s = self;
        s.payment_id = Some(id);
        s
    }

    /// Builder: set provider ID.
    pub fn with_provider(self, id: ProviderId) -> (r: Self)
        ensures
            r == (CanonicalEvent { provider_id: Some(id), ..self }),
    {
        let mut s = self;
        s.provider_id = Some(id);
        s
    }

    /// Builder: set amount.
    pub fn with_amount(self, amount: Money) -> (r: Self)
        ensures
            r == (CanonicalEvent { amount: Some(amount), ..self }),
    {
        let mut s = self;
        s.amount = Some(amount);
        s
    }

    /// Builder: set correlation ID.
    pub fn with_correlation_id(self, id: String) -> (r: Self)
        ensures
            r == (CanonicalEvent { correlation_id: id, ..self }),
    {
        let mut s = self;
        s.correlation_id = id;
        s
    }

    /// Builder: set raw payload (JSON text).
    pub fn with_raw_payload(self, payload: String) -> (r: Self)
        ensures
            r == (CanonicalEvent { raw_payload: Some(payload), ..self }),
    {
        let mut s = self;
        s.raw_payload = Some(payload);
        s
    }

    /// A copy of the event.
    pub fn duplicate(&self) -> (r: Self)
        ensures
            r.same_as(self),
    {
        CanonicalEvent {
            event_id: self.event_id.clone(),
            kind: self.kind,
            payment_id: match &self.payment_id {
                Some(p) => Some(p.duplicate()),
                None => None,
            },
            provider_id: match &self.provider_id {
                Some(p) => Some(ProviderId(p.0.clone())),
                None => None,
            },
            provider_event_id: match &self.provider_event_id {
                Some(p) => Some(p.clone()),
                None => None,
            },
            amount: self.amount,
            occurred_at: self.occurred_at,
            received_at: self.received_at,
            correlation_id: self.correlation_id.clone(),
            metadata: self.metadata.clone(),
            raw_payload: match &self.raw_payload {
                Some(p) => Some(p.clone()),
                None => None,
            },
        }
    }
}

/// Each payment event reports the payment state of the same name (created,
/// processing, authorized, captured, failed, cancelled, refunded, partially
/// refunded, expired), and no payout, chargeback, webhook, connector or
/// retry event reports a payment state.
pub proof fn law_payment_event_reports_its_state(k: EventKind)
    ensures
        k == EventKind::PaymentCreated <==> k.spec_payment_state() == Some(PaymentState::Created),
        k == EventKind::PaymentProcessing <==> k.spec_payment_state() == Some(
            PaymentState::Processing,
        ),
        k == EventKind::PaymentAuthorized <==> k.spec_payment_state() == Some(
            PaymentState::Authorized,
        ),
        k == EventKind::PaymentCaptured <==> k.spec_payment_state() == Some(PaymentState::Captured),
        k == EventKind::PaymentFailed <==> k.spec_payment_state() == Some(PaymentState::Failed),
        k == EventKind::PaymentCancelled <==> k.spec_payment_state() == Some(
            PaymentState::Cancelled,
        ),
        k == EventKind::PaymentRefunded <==> k.spec_payment_state() == Some(PaymentState::Refunded),
        k == EventKind::PaymentPartiallyRefunded <==> k.spec_payment_state() == Some(
            PaymentState::PartiallyRefunded,
        ),
        k == EventKind::PaymentExpired <==> k.spec_payment_state() == Some(PaymentState::Expired),
        k.spec_payment_state() matches Some(s) ==> s != PaymentState::PartiallyCaptured && s
            != PaymentState::Disputed,
{
}

} // verus!
