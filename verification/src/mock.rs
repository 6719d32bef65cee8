//! Mock payment connector for testing and development.

use vstd::prelude::*;
use crate::connector::{
    AuthorizeRequest, AuthorizeResponse, CaptureRequest, CaptureResponse, RefundRequest,
    RefundResponse,
};
use crate::currency::Currency;
use crate::event::{CanonicalEvent, EventKind};
use crate::money::Money;
use crate::payment::{new_uuid_text, PaymentId, PaymentState, UUID_TEXT_LEN};
use crate::provider::{ProviderCapability, ProviderId};
use crate::text::push_str;
use crate::text_map::{text_eq, TextMap};
use crate::hmac_verifier::opt_text_view;
use crate::webhook::{lookup_value, RawWebhook, VerificationResult};
use crate::webhook_verifier::WebhookVerifier;

verus! {

/// Configuration for the mock connector.
#[derive(Debug, Clone)]
pub struct MockConfig {
    /// Whether authorizations should succeed.
    pub authorize_success: bool,
    /// Whether captures should succeed.
    pub capture_success: bool,
    /// Whether refunds should succeed.
    pub refund_success: bool,
    /// Simulated latency in milliseconds.
    pub latency_ms: u64,
    /// Webhook signing secret for verification.
    pub webhook_secret: String,
}

impl Default for MockConfig {
    fn default() -> (r: Self)
        ensures
            r.authorize_success && r.capture_success && r.refund_success,
            r.latency_ms == 0,
            r.webhook_secret@ == "mock_webhook_secret_key"@,
    {
        Self {
            authorize_success: true,
            capture_success: true,
            refund_success: true,
            latency_ms: 0,
            webhook_secret: String::from_str("mock_webhook_secret_key"),
        }
    }
}

/// In-memory record of a mock transaction.
#[derive(Debug)]
struct MockTransaction {
    payment_id: PaymentId,
    provider_ref: String,
    amount: Money,
    state: PaymentState,
}

/// A mock transaction read as plain values.
pub struct TransactionView {
    pub payment_id: Seq<char>,
    pub amount: Money,
    pub state: PaymentState,
}

/// The fields of a webhook payload that the mock connector reads.
#[derive(Debug, Clone)]
pub struct MockWebhookPayload {
    /// The payload's `type` field, when it is a string.
    pub event_type: Option<String>,
    /// The payload's `payment_id` field, when it is a string.
    pub payment_id: Option<String>,
    /// The payload's `amount` field, when it is an integer in `i64`.
    pub amount: Option<i64>,
}

/// Mock payment connector for testing and development.
///
/// Simulates a payment provider entirely in memory. Useful for:
/// - Integration testing without real provider credentials
/// - Local development and prototyping
/// - Fixture generation and webhook replay testing
pub struct MockConnector {
    provider_id: ProviderId,
    config: MockConfig,
    transactions: TextMap<MockTransaction>,
}

/// Error type for the mock connector.
#[derive(Debug, Clone)]
pub enum MockConnectorError {
    AuthorizationDeclined,
    CaptureFailed,
    RefundFailed,
    TransactionNotFound(String),
    InvalidWebhook(String),
}

impl MockConnectorError {
    /// The message that the error displays as.
    pub open spec fn message_text(&self) -> Seq<char> {
        match self {
            MockConnectorError::AuthorizationDeclined => "mock authorization declined"@,
            MockConnectorError::CaptureFailed => "mock capture failed"@,
            MockConnectorError::RefundFailed => "mock refund failed"@,
            MockConnectorError::TransactionNotFound(r) => "transaction not found: "@ + r@,
            MockConnectorError::InvalidWebhook(m) => "invalid webhook payload: "@ + m@,
        }
    }

    /// The message that the error displays as.
    pub fn to_string(&self) -> (r: String)
        ensures
            r@ == self.message_text(),
    {
        match self {
            MockConnectorError::AuthorizationDeclined => String::from_str(
                "mock authorization declined",
            ),
            MockConnectorError::CaptureFailed => String::from_str("mock capture failed"),
            MockConnectorError::RefundFailed => String::from_str("mock refund failed"),
            MockConnectorError::TransactionNotFound(r) => {
                let mut s = String::from_str("transaction not found: ");
                push_str(&mut s, r.as_str());
                s
            },
            MockConnectorError::InvalidWebhook(m) => {
                let mut s = String::from_str("invalid webhook payload: ");
                push_str(&mut s, m.as_str());
                s
            },
        }
    }
}

/// The raw response the mock gives for an authorization.
pub open spec fn authorized_response() -> Seq<char> {
    "{\"mock\":true,\"status\":\"authorized\"}"@
}

/// The raw response the mock gives for a capture.
pub open spec fn captured_response() -> Seq<char> {
    "{\"mock\":true,\"status\":\"captured\"}"@
}

/// The raw response the mock gives for a refund.
pub open spec fn refunded_response() -> Seq<char> {
    "{\"mock\":true,\"status\":\"refunded\"}"@
}

/// The event kind that a mock webhook `type` names.
pub open spec fn mock_event_kind(t: Seq<char>) -> Option<EventKind> {
    if t == "payment.authorized"@ {
        Some(EventKind::PaymentAuthorized)
    } else if t == "payment.captured"@ {
        Some(EventKind::PaymentCaptured)
    } else if t == "payment.failed"@ {
        Some(EventKind::PaymentFailed)
    } else if t == "payment.refunded"@ {
        Some(EventKind::PaymentRefunded)
    } else {
        None
    }
}

/// The state a refund leaves a transaction of `amount` in: partially
/// refunded when a requested amount is below it, refunded otherwise (a
/// refund without an amount is a full one).
pub open spec fn refund_state(amount: Money, requested: Option<Money>) -> PaymentState {
    match requested {
        Some(a) => if a.amount < amount.amount {
            PaymentState::PartiallyRefunded
        } else {
            PaymentState::Refunded
        },
        None => PaymentState::Refunded,
    }
}

/// What the JSON parser reports for `body` when it is not JSON, as text
/// (`None` when it parses).
pub uninterp spec fn json_parse_error(body: Seq<char>) -> Option<Seq<char>>;

/// The string value of the top-level `field` of the JSON text `body`, when
/// there is one.
pub uninterp spec fn json_str_field(body: Seq<char>, field: Seq<char>) -> Option<Seq<char>>;

/// The `i64` value of the top-level `field` of the JSON text `body`, when
/// there is one.
pub uninterp spec fn json_i64_field(body: Seq<char>, field: Seq<char>) -> Option<i64>;

/// Calls `serde_json::from_str` into a `serde_json::Value`, then reads its
/// `type` and `payment_id` fields with `as_str` and its `amount` field with
/// `as_i64` (indexing a value that is not an object, or lacks the key,
/// gives `null`, which has neither). On a parse error, its message.
#[verifier::external_body]
fn mock_payload(body: &str) -> (r: Result<MockWebhookPayload, String>)
    ensures
        match r {
            Err(e) => json_parse_error(body@) == Some(e@),
            Ok(p) => {
                &&& json_parse_error(body@) is None
                &&& opt_text_view(p.event_type) == json_str_field(body@, "type"@)
                &&& opt_text_view(p.payment_id) == json_str_field(body@, "payment_id"@)
                &&& p.amount == json_i64_field(body@, "amount"@)
            },
        },
{
    let payload: serde_json::Value = match serde_json::from_str(body) {
        Ok(v) => v,
        Err(e) => return Err(e.to_string()),
    };
    Ok(MockWebhookPayload {
        event_type: payload["type"].as_str().map(String::from),
        payment_id: payload["payment_id"].as_str().map(String::from),
        amount: payload["amount"].as_i64(),
    })
}

/// The event that a mock webhook with `body` and the payload fields
/// `event_type`, `payment_id` and `amount` parses into: a missing or
/// unknown `type` is refused; otherwise the event of that kind from
/// provider `mock`, with the body as raw payload, the payment id and a USD
/// amount when present, no provider event id, `null` metadata, a fresh id,
/// and one time for occurrence and receipt.
pub open spec fn event_from_fields(
    body: Seq<char>,
    event_type: Option<Seq<char>>,
    payment_id: Option<Seq<char>>,
    amount: Option<i64>,
    r: Result<CanonicalEvent, MockConnectorError>,
) -> bool {
    match event_type {
        None => r matches Err(MockConnectorError::InvalidWebhook(m)) && m@ == "missing 'type' field"@,
        Some(t) => match mock_event_kind(t) {
            None => r matches Err(MockConnectorError::InvalidWebhook(m)) && m@ == "unknown event type: "@
                + t,
            Some(kind) => r matches Ok(event) && {
                &&& event.kind == kind
                &&& event.provider_id matches Some(pid) && pid@ == "mock"@
                &&& event.raw_payload matches Some(raw) && raw@ == body
                &&& match payment_id {
                    Some(pid) => event.payment_id matches Some(e) && e@ == pid,
                    None => event.payment_id is None,
                }
                &&& event.amount == (match amount {
                    Some(a) => Some(Money { amount: a, currency: Currency::USD }),
                    None => None,
                })
                &&& event.provider_event_id is None
                &&& event.metadata@ == "null"@
                &&& event.occurred_at == event.received_at
                &&& event.event_id@.len() == UUID_TEXT_LEN
            },
        },
    }
}

/// The transactions after marking the one under `reference` with `state`.
pub open spec fn with_state(
    m: Map<Seq<char>, TransactionView>,
    reference: Seq<char>,
    state: PaymentState,
) -> Map<Seq<char>, TransactionView> {
    m.insert(reference, TransactionView { state, ..m[reference] })
}

impl MockConnector {
    /// The transactions, keyed by provider reference.
    pub closed spec fn transactions(&self) -> Map<Seq<char>, TransactionView> {
        self.transactions@.map_values(
            |t: MockTransaction|
                TransactionView { payment_id: t.payment_id@, amount: t.amount, state: t.state },
        )
    }

    pub closed spec fn cfg(&self) -> MockConfig {
        self.config
    }

    pub closed spec fn spec_provider_id(&self) -> ProviderId {
        self.provider_id
    }

    pub fn new(config: MockConfig) -> (r: Self)
        ensures
            r.cfg() == config,
            r.spec_provider_id()@ == "mock"@,
            r.transactions() == Map::<Seq<char>, TransactionView>::empty(),
    {
        let r = Self {
            provider_id: ProviderId::new("mock"),
            config,
            transactions: TextMap::new(),
        };
        assert(r.transactions() =~= Map::<Seq<char>, TransactionView>::empty());
        r
    }

    pub fn with_defaults() -> (r: Self)
        ensures
            r.cfg().authorize_success && r.cfg().capture_success && r.cfg().refund_success,
            r.cfg().latency_ms == 0,
            r.cfg().webhook_secret@ == "mock_webhook_secret_key"@,
            r.spec_provider_id()@ == "mock"@,
            r.transactions() == Map::<Seq<char>, TransactionView>::empty(),
    {
        Self::new(MockConfig::default())
    }

    /// Get the current state of a mock transaction.
    pub fn get_transaction(&self, provider_ref: &str) -> (r: Option<PaymentState>)
        ensures
            r == (if self.transactions().contains_key(provider_ref@) {
                Some(self.transactions()[provider_ref@].state)
            } else {
                None
            }),
    {
        match self.transactions.get(provider_ref) {
            Some(t) => Some(t.state),
            None => None,
        }
    }

    /// Simulated latency in milliseconds.
    pub fn latency_ms(&self) -> (r: u64)
        ensures
            r == self.cfg().latency_ms,
    {
        self.config.latency_ms
    }

    /// Returns the provider identifier.
    pub fn provider_id(&self) -> (r: &ProviderId)
        ensures
            *r == self.spec_provider_id(),
    {
        &self.provider_id
    }

    /// Returns the capabilities supported by this provider.
    pub fn capabilities(&self) -> (r: Vec<ProviderCapability>)
        ensures
            r@ == seq![
                ProviderCapability::AuthCapture,
                ProviderCapability::DirectCapture,
                ProviderCapability::Refund,
                ProviderCapability::PartialRefund,
                ProviderCapability::Void,
                ProviderCapability::Webhooks,
            ],
    {
        let v = vec![
            ProviderCapability::AuthCapture,
            ProviderCapability::DirectCapture,
            ProviderCapability::Refund,
            ProviderCapability::PartialRefund,
            ProviderCapability::Void,
            ProviderCapability::Webhooks,
        ];
        assert(v@ =~= seq![
            ProviderCapability::AuthCapture,
            ProviderCapability::DirectCapture,
            ProviderCapability::Refund,
            ProviderCapability::PartialRefund,
            ProviderCapability::Void,
            ProviderCapability::Webhooks,
        ]);
        v
    }

    /// Authorize a payment (reserve funds): declined when so configured;
    /// otherwise a new transaction in the authorized state is recorded
    /// under a fresh reference `mock_auth_<uuid>`.
    pub fn authorize(&mut self, req: AuthorizeRequest) -> (r: Result<
        AuthorizeResponse,
        MockConnectorError,
    >)
        ensures
            final(self).cfg() == old(self).cfg(),
            final(self).spec_provider_id() == old(self).spec_provider_id(),
            !old(self).cfg().authorize_success ==> (r matches Err(
                MockConnectorError::AuthorizationDeclined,
            ) && final(self).transactions() == old(self).transactions()),
            old(self).cfg().authorize_success ==> (r matches Ok(resp) && {
                &&& resp.payment_id@ == req.payment_id@
                &&& resp.authorized_amount == req.amount
                &&& resp.provider_reference@.len() == "mock_auth_"@.len() + UUID_TEXT_LEN
                &&& resp.provider_reference@.subrange(0, "mock_auth_"@.len() as int)
                    == "mock_auth_"@
                &&& resp.raw_response matches Some(raw) && raw@ == authorized_response()
                &&& final(self).transactions() == old(self).transactions().insert(
                    resp.provider_reference@,
                    TransactionView {
                        payment_id: req.payment_id@,
                        amount: req.amount,
                        state: PaymentState::Authorized,
                    },
                )
            }),
            r matches Ok(resp) ==> final(self).transactions() == apply_call(
                old(self).transactions(),
                MockCall::Authorize(
                    resp.provider_reference@,
                    TransactionView {
                        payment_id: req.payment_id@,
                        amount: req.amount,
                        state: PaymentState::Authorized,
                    },
                ),
            ),
            r is Err ==> final(self).transactions() == old(self).transactions(),
    {
        if !self.config.authorize_success {
            return Err(MockConnectorError::AuthorizationDeclined);
        }
        proof {
            reveal_strlit("mock_auth_");
        }
        let mut provider_ref = String::from_str("mock_auth_");
        let id = new_uuid_text();
        push_str(&mut provider_ref, id.as_str());
        proof {
            assert(provider_ref@.subrange(0, "mock_auth_"@.len() as int) =~= "mock_auth_"@);
        }
        let txn = MockTransaction {
            payment_id: req.payment_id.duplicate(),
            provider_ref: provider_ref.clone(),
            amount: req.amount,
            state: PaymentState::Authorized,
        };
        let ghost before = self.transactions();
        self.transactions.insert(provider_ref.clone(), txn);
        assert(self.transactions() =~= before.insert(
            provider_ref@,
            TransactionView {
                payment_id: req.payment_id@,
                amount: req.amount,
                state: PaymentState::Authorized,
            },
        ));
        Ok(AuthorizeResponse {
            payment_id: req.payment_id,
            provider_reference: provider_ref,
            authorized_amount: req.amount,
            raw_response: Some(String::from_str("{\"mock\":true,\"status\":\"authorized\"}")),
        })
    }

    /// Replaces the state of the transaction under `reference`, giving back
    /// its amount.
    fn set_state(&mut self, reference: &str, state: PaymentState) -> (r: Option<Money>)
        ensures
            final(self).cfg() == old(self).cfg(),
            final(self).spec_provider_id() == old(self).spec_provider_id(),
            old(self).transactions().contains_key(reference@) ==> (r == Some(
                old(self).transactions()[reference@].amount,
            ) && final(self).transactions() == with_state(
                old(self).transactions(),
                reference@,
                state,
            )),
            !old(self).transactions().contains_key(reference@) ==> (r is None && final(self).transactions() == old(self).transactions()),
    {
        let ghost before = self.transactions();
        let found = match self.transactions.get(reference) {
            Some(t) => Some((t.payment_id.duplicate(), t.provider_ref.clone(), t.amount)),
            None => None,
        };
        match found {
            Some((payment_id, provider_ref, amount)) => {
                let txn = MockTransaction { payment_id, provider_ref, amount, state };
                self.transactions.insert(String::from_str(reference), txn);
                assert(self.transactions() =~= with_state(before, reference@, state));
                Some(amount)
            },
            None => None,
        }
    }

    /// Capture an authorized payment (transfer funds): fails when so
    /// configured or when the reference is unknown; otherwise the
    /// transaction becomes captured, for the requested amount or else the
    /// transaction's amount.
    pub fn capture(&mut self, req: CaptureRequest) -> (r: Result<CaptureResponse, MockConnectorError>)
        ensures
            final(self).cfg() == old(self).cfg(),
            final(self).spec_provider_id() == old(self).spec_provider_id(),
            !old(self).cfg().capture_success ==> (r matches Err(MockConnectorError::CaptureFailed)
                && final(self).transactions() == old(self).transactions()),
            old(self).cfg().capture_success && !old(self).transactions().contains_key(
                req.provider_reference@,
            ) ==> (r matches Err(MockConnectorError::TransactionNotFound(m)) && m@
                == req.provider_reference@ && final(self).transactions() == old(self).transactions()),
            old(self).cfg().capture_success && old(self).transactions().contains_key(
                req.provider_reference@,
            ) ==> (r matches Ok(resp) && {
                &&& resp.payment_id@ == req.payment_id@
                &&& resp.provider_reference@ == req.provider_reference@
                &&& resp.captured_amount == (match req.amount {
                    Some(a) => a,
                    None => old(self).transactions()[req.provider_reference@].amount,
                })
                &&& resp.raw_response matches Some(raw) && raw@ == captured_response()
                &&& final(self).transactions() == with_state(
                    old(self).transactions(),
                    req.provider_reference@,
                    PaymentState::Captured,
                )
            }),
            r is Ok ==> final(self).transactions() == apply_call(
                old(self).transactions(),
                MockCall::Capture(req.provider_reference@),
            ),
            r is Err ==> final(self).transactions() == old(self).transactions(),
    {
        if !self.config.capture_success {
            return Err(MockConnectorError::CaptureFailed);
        }
        match self.set_state(req.provider_reference.as_str(), PaymentState::Captured) {
            None => Err(MockConnectorError::TransactionNotFound(req.provider_reference.clone())),
            Some(txn_amount) => {
                let captured_amount = match req.amount {
                    Some(a) => a,
                    None => txn_amount,
                };
                let raw = String::from_str("{\"mock\":true,\"status\":\"captured\"}");
                Ok(CaptureResponse {
                    payment_id: req.payment_id,
                    provider_reference: req.provider_reference,
                    captured_amount,
                    raw_response: Some(raw),
                })
            },
        }
    }

    /// Refund a captured payment: fails when so configured or when the
    /// reference is unknown; otherwise the requested amount, or else the
    /// transaction's amount, is refunded under a fresh reference
    /// `mock_refund_<uuid>`, and the transaction becomes partially refunded
    /// when that is less than its amount, refunded otherwise.
    pub fn refund(&mut self, req: RefundRequest) -> (r: Result<RefundResponse, MockConnectorError>)
        ensures
            final(self).cfg() == old(self).cfg(),
            final(self).spec_provider_id() == old(self).spec_provider_id(),
            !old(self).cfg().refund_success ==> (r matches Err(MockConnectorError::RefundFailed)
                && final(self).transactions() == old(self).transactions()),
            old(self).cfg().refund_success && !old(self).transactions().contains_key(
                req.provider_reference@,
            ) ==> (r matches Err(MockConnectorError::TransactionNotFound(m)) && m@
                == req.provider_reference@ && final(self).transactions() == old(self).transactions()),
            old(self).cfg().refund_success && old(self).transactions().contains_key(
                req.provider_reference@,
            ) ==> (r matches Ok(resp) && {
                &&& resp.payment_id@ == req.payment_id@
                &&& resp.provider_reference@ == req.provider_reference@
                &&& resp.refunded_amount == (match req.amount {
                    Some(a) => a,
                    None => old(self).transactions()[req.provider_reference@].amount,
                })
                &&& resp.refund_reference@.len() == "mock_refund_"@.len() + UUID_TEXT_LEN
                &&& resp.refund_reference@.subrange(0, "mock_refund_"@.len() as int)
                    == "mock_refund_"@
                &&& resp.raw_response matches Some(raw) && raw@ == refunded_response()
                &&& final(self).transactions() == with_state(
                    old(self).transactions(),
                    req.provider_reference@,
                    refund_state(old(self).transactions()[req.provider_reference@].amount, req.amount),
                )
            }),
            r is Ok ==> final(self).transactions() == apply_call(
                old(self).transactions(),
                MockCall::Refund(req.provider_reference@, req.amount),
            ),
            r is Err ==> final(self).transactions() == old(self).transactions(),
    {
        if !self.config.refund_success {
            return Err(MockConnectorError::RefundFailed);
        }
        let txn_amount = match self.transactions.get(req.provider_reference.as_str()) {
            Some(t) => t.amount,
            None => {
                return Err(MockConnectorError::TransactionNotFound(req.provider_reference.clone()));
            },
        };
        let refunded_amount = match req.amount {
            Some(a) => a,
            None => txn_amount,
        };
        let state = if refunded_amount.amount < txn_amount.amount {
            PaymentState::PartiallyRefunded
        } else {
            PaymentState::Refunded
        };
        match self.set_state(req.provider_reference.as_str(), state) {
            None => Err(MockConnectorError::TransactionNotFound(req.provider_reference.clone())),
            Some(_) => {
                proof {
                    reveal_strlit("mock_refund_");
                }
                let mut refund_ref = String::from_str("mock_refund_");
                let id = new_uuid_text();
                push_str(&mut refund_ref, id.as_str());
                proof {
                    assert(refund_ref@.subrange(0, "mock_refund_"@.len() as int) =~= "mock_refund_"@);
                }
                Ok(RefundResponse {
                    payment_id: req.payment_id,
                    provider_reference: req.provider_reference,
                    refund_reference: refund_ref,
                    refunded_amount,
                    raw_response: Some(String::from_str("{\"mock\":true,\"status\":\"refunded\"}")),
                })
            },
        }
    }

    /// Parse a webhook into a canonical event: its JSON body is read for
    /// the string `type` and `payment_id` and the `i64` `amount` fields (a
    /// body that is not JSON is refused with the parser's message), and the
    /// event is built from them as `parse_webhook_payload` builds it.
    pub fn parse_webhook(&self, webhook: &RawWebhook) -> (r: Result<CanonicalEvent, MockConnectorError>)
        ensures
            match json_parse_error(webhook.body@) {
                Some(e) => r matches Err(MockConnectorError::InvalidWebhook(m)) && m@ == e,
                None => event_from_fields(
                    webhook.body@,
                    json_str_field(webhook.body@, "type"@),
                    json_str_field(webhook.body@, "payment_id"@),
                    json_i64_field(webhook.body@, "amount"@),
                    r,
                ),
            },
    {
        let payload = mock_payload(webhook.body.as_str());
        self.parse_webhook_payload(webhook, payload)
    }

    /// Parse a webhook into a canonical event, given the payload fields that
    /// its JSON body holds (or the JSON parser's error): the `type` names the
    /// kind, the event comes from provider `mock` with the body as raw
    /// payload, and carries the payment id and a USD amount when present.
    pub fn parse_webhook_payload(
        &self,
        webhook: &RawWebhook,
        payload: Result<MockWebhookPayload, String>,
    ) -> (r: Result<CanonicalEvent, MockConnectorError>)
        ensures
            match payload {
                Err(e) => r matches Err(MockConnectorError::InvalidWebhook(m)) && m@ == e@,
                Ok(p) => event_from_fields(
                    webhook.body@,
                    opt_text_view(p.event_type),
                    opt_text_view(p.payment_id),
                    p.amount,
                    r,
                ),
            },
    {
        let p = match payload {
            Ok(p) => p,
            Err(e) => return Err(MockConnectorError::InvalidWebhook(e)),
        };
        let event_type = match p.event_type {
            Some(t) => t,
            None => return Err(MockConnectorError::InvalidWebhook(String::from_str("missing 'type' field"))),
        };
        let kind = match mock_kind_of(event_type.as_str()) {
            Some(k) => k,
            None => {
                let mut m = String::from_str("unknown event type: ");
                push_str(&mut m, event_type.as_str());
                return Err(MockConnectorError::InvalidWebhook(m));
            },
        };
        let mut event = CanonicalEvent::new(kind).with_provider(ProviderId::new("mock")).with_raw_payload(
            webhook.body.clone(),
        );
        if let Some(pid) = p.payment_id {
            event = event.with_payment_id(PaymentId::from_str(pid.as_str()));
        }
        if let Some(a) = p.amount {
            event = event.with_amount(Money::new(a, Currency::USD));
        }
        Ok(event)
    }
}

fn mock_kind_of(t: &str) -> (r: Option<EventKind>)
    ensures
        r == mock_event_kind(t@),
{
    if text_eq(t, "payment.authorized") {
        Some(EventKind::PaymentAuthorized)
    } else if text_eq(t, "payment.captured") {
        Some(EventKind::PaymentCaptured)
    } else if text_eq(t, "payment.failed") {
        Some(EventKind::PaymentFailed)
    } else if text_eq(t, "payment.refunded") {
        Some(EventKind::PaymentRefunded)
    } else {
        None
    }
}

/// What the mock's webhook check comes to: a signature header equal to
/// the configured secret is valid, any other is invalid, and a missing
/// header skips the check.
pub open spec fn mock_signature_result(r: VerificationResult, signature: Option<Seq<char>>, secret: Seq<char>) -> bool {
    match signature {
        Some(sig) => if sig == secret {
            r is Valid
        } else {
            r matches VerificationResult::Invalid { reason } && reason@ == "signature mismatch"@
        },
        None => r matches VerificationResult::Skipped { reason } && reason@
            == "no signature header present"@,
    }
}

impl WebhookVerifier for MockConnector {
    type Error = MockConnectorError;

    /// Compares the `x-signature` header with the configured secret.
    fn verify(&self, webhook: &RawWebhook) -> (r: Result<VerificationResult, MockConnectorError>)
        ensures
            r matches Ok(v) && mock_signature_result(
                v,
                lookup_value(webhook.headers@, "x-signature"@),
                self.cfg().webhook_secret@,
            ),
    {
        match webhook.header("x-signature") {
            Some(sig) => {
                if text_eq(sig, self.config.webhook_secret.as_str()) {
                    Ok(VerificationResult::Valid)
                } else {
                    Ok(VerificationResult::Invalid { reason: String::from_str("signature mismatch") })
                }
            },
            None => Ok(
                VerificationResult::Skipped { reason: String::from_str("no signature header present") },
            ),
        }
    }
}

/// A payment authorized, captured and refunded through the mock ends in the
/// refunded state, with its reference still recorded.
pub proof fn law_authorize_capture_refund(
    m: Map<Seq<char>, TransactionView>,
    reference: Seq<char>,
    txn: TransactionView,
)
    ensures
        ({
            let authorized = m.insert(reference, txn);
            let captured = with_state(authorized, reference, PaymentState::Captured);
            let refunded = with_state(captured, reference, PaymentState::Refunded);
            &&& refunded.contains_key(reference)
            &&& refunded[reference].state == PaymentState::Refunded
            &&& refunded[reference].payment_id == txn.payment_id
            &&& refunded[reference].amount == txn.amount
        }),
{
}

/// Capturing or refunding one transaction leaves every other transaction
/// as it was.
pub proof fn law_state_change_touches_only_its_reference(
    m: Map<Seq<char>, TransactionView>,
    reference: Seq<char>,
    other: Seq<char>,
    state: PaymentState,
)
    requires
        m.contains_key(reference),
        reference != other,
    ensures
        with_state(m, reference, state).contains_key(other) == m.contains_key(other),
        m.contains_key(other) ==> with_state(m, reference, state)[other] == m[other],
{
}

/// A successful call on the mock connector, as it bears on the recorded
/// transactions: an authorization recorded under its fresh reference, a
/// capture of a reference, or a refund of a reference for an optional
/// amount. (A call that fails leaves the transactions as they were.)
pub enum MockCall {
    Authorize(Seq<char>, TransactionView),
    Capture(Seq<char>),
    Refund(Seq<char>, Option<Money>),
}

impl MockCall {
    /// The reference that the call concerns.
    pub open spec fn reference(self) -> Seq<char> {
        match self {
            MockCall::Authorize(r, _) => r,
            MockCall::Capture(r) => r,
            MockCall::Refund(r, _) => r,
        }
    }
}

/// The transactions after one call, as the contracts of `authorize`,
/// `capture` and `refund` give them: a capture or refund of an unknown
/// reference changes nothing.
pub open spec fn apply_call(m: Map<Seq<char>, TransactionView>, c: MockCall) -> Map<
    Seq<char>,
    TransactionView,
> {
    match c {
        MockCall::Authorize(r, txn) => m.insert(
            r,
            TransactionView { state: PaymentState::Authorized, ..txn },
        ),
        MockCall::Capture(r) => if m.contains_key(r) {
            with_state(m, r, PaymentState::Captured)
        } else {
            m
        },
        MockCall::Refund(r, amount) => if m.contains_key(r) {
            with_state(m, r, refund_state(m[r].amount, amount))
        } else {
            m
        },
    }
}

/// The transactions after a sequence of calls, in order.
pub open spec fn apply_calls(m: Map<Seq<char>, TransactionView>, calls: Seq<MockCall>) -> Map<
    Seq<char>,
    TransactionView,
>
    decreases calls.len(),
{
    if calls.len() == 0 {
        m
    } else {
        apply_call(apply_calls(m, calls.drop_last()), calls.last())
    }
}

/// The state that the call leaves its transaction in, given the amount the
/// transaction holds.
pub open spec fn call_state(c: MockCall, amount: Money) -> PaymentState {
    match c {
        MockCall::Authorize(_, _) => PaymentState::Authorized,
        MockCall::Capture(_) => PaymentState::Captured,
        MockCall::Refund(_, requested) => refund_state(amount, requested),
    }
}

/// Whether `i` is the last call of `calls` that concerns `reference`.
pub open spec fn is_last_call_on(calls: Seq<MockCall>, reference: Seq<char>, i: int) -> bool {
    &&& 0 <= i < calls.len()
    &&& calls[i].reference() == reference
    &&& forall|j: int| i < j < calls.len() ==> (#[trigger] calls[j]).reference() != reference
}

/// Over any sequence of calls on a new mock connector (whose transactions
/// start empty, each successful `authorize`, `capture` and `refund` acting
/// as `apply_call` of its call, and each failed one changing nothing), a
/// reference is known exactly when some authorization recorded it; and a
/// known reference is in
/// the state that the last call concerning it left it in: authorized after
/// an authorization, captured after a capture, and after a refund refunded
/// or (for an amount below the transaction's) partially refunded.
pub proof fn law_mock_transaction_states(calls: Seq<MockCall>, reference: Seq<char>)
    ensures
        apply_calls(Map::empty(), calls).contains_key(reference) <==> exists|i: int|
            0 <= i < calls.len() && #[trigger] calls[i] is Authorize && calls[i].reference()
                == reference,
        forall|i: int|
            #[trigger] is_last_call_on(calls, reference, i) && apply_calls(
                Map::empty(),
                calls,
            ).contains_key(reference) ==> apply_calls(Map::empty(), calls)[reference].state
                == call_state(calls[i], apply_calls(Map::empty(), calls)[reference].amount),
    decreases calls.len(),
{
    if calls.len() > 0 {
        let prefix = calls.drop_last();
        let c = calls.last();
        law_mock_transaction_states(prefix, reference);
        let before = apply_calls(Map::empty(), prefix);
        let after = apply_calls(Map::empty(), calls);
        assert(after == apply_call(before, c));
        assert forall|i: int| 0 <= i < prefix.len() implies #[trigger] prefix[i] == calls[i] by {}
        if after.contains_key(reference) {
            if c.reference() == reference && c is Authorize {
                assert(calls[calls.len() - 1] is Authorize);
            } else {
                let i = choose|i: int|
                    0 <= i < prefix.len() && #[trigger] prefix[i] is Authorize && prefix[i].reference()
                        == reference;
                assert(calls[i] is Authorize);
            }
        } else if exists|i: int|
            0 <= i < calls.len() && #[trigger] calls[i] is Authorize && calls[i].reference()
                == reference {
            let i = choose|i: int|
                0 <= i < calls.len() && #[trigger] calls[i] is Authorize && calls[i].reference()
                    == reference;
            if i < prefix.len() {
                assert(prefix[i] is Authorize);
            }
        }
        assert forall|i: int|
            #[trigger] is_last_call_on(calls, reference, i) && after.contains_key(
                reference,
            ) implies after[reference].state == call_state(calls[i], after[reference].amount) by {
            if i < calls.len() - 1 {
                assert(c.reference() != reference);
                assert(is_last_call_on(prefix, reference, i));
            }
        }
    }
}

/// A mock webhook of type `payment.<x>` parses into the event kind named
/// `payment_<x>`: only the four known types are accepted, each into the
/// kind of its own name, so distinct types give distinct kinds.
pub proof fn law_mock_webhook_type_names_its_kind(t: Seq<char>)
    ensures
        mock_event_kind(t) matches Some(k) ==> (t.len() > 8 && k.name() == "payment_"@ + t.subrange(
            8,
            t.len() as int,
        ) && t.subrange(0, 8) == "payment."@),
        mock_event_kind(t) is Some <==> (t == "payment.authorized"@ || t == "payment.captured"@
            || t == "payment.failed"@ || t == "payment.refunded"@),
{
    reveal_strlit("payment.authorized");
    reveal_strlit("payment.captured");
    reveal_strlit("payment.failed");
    reveal_strlit("payment.refunded");
    reveal_strlit("payment_authorized");
    reveal_strlit("payment_captured");
    reveal_strlit("payment_failed");
    reveal_strlit("payment_refunded");
    reveal_strlit("payment_");
    reveal_strlit("payment.");
    if mock_event_kind(t) is Some {
        let k = mock_event_kind(t).unwrap();
        assert(t.subrange(0, 8) =~= "payment."@);
        assert(k.name() =~= "payment_"@ + t.subrange(8, t.len() as int));
    }
}

/// A mock webhook reports the payment state that the connector records for
/// the same operation: `payment.authorized` the state an authorization
/// records, `payment.captured` the state a capture records, and
/// `payment.refunded` the state a full refund records; `payment.failed`
/// reports a failed payment.
pub proof fn law_mock_webhook_reports_recorded_state(amount: Money)
    ensures
        mock_event_kind("payment.authorized"@).unwrap().spec_payment_state() == Some(
            call_state(MockCall::Authorize(seq![], TransactionView { payment_id: seq![], amount, state: PaymentState::Authorized }), amount),
        ),
        mock_event_kind("payment.captured"@).unwrap().spec_payment_state() == Some(
            call_state(MockCall::Capture(seq![]), amount),
        ),
        mock_event_kind("payment.refunded"@).unwrap().spec_payment_state() == Some(
            call_state(MockCall::Refund(seq![], None), amount),
        ),
        mock_event_kind("payment.failed"@).unwrap().spec_payment_state() == Some(
            PaymentState::Failed,
        ),
{
    reveal_strlit("payment.authorized");
    reveal_strlit("payment.captured");
    reveal_strlit("payment.failed");
    reveal_strlit("payment.refunded");
    assert("payment.captured"@.len() != "payment.authorized"@.len());
    assert("payment.refunded"@.len() != "payment.authorized"@.len());
    assert("payment.refunded"@[8] != "payment.captured"@[8]);
    assert("payment.refunded"@.len() != "payment.failed"@.len());
}

} // verus!
