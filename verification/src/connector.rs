//! Requests and responses of payment connectors.

use vstd::prelude::*;
use crate::money::Money;
use crate::payment::{PaymentId, PaymentMethod};

verus! {

/// Request to authorize a payment.
#[derive(Debug, Clone)]
pub struct AuthorizeRequest {
    pub payment_id: PaymentId,
    pub amount: Money,
    pub payment_method: PaymentMethod,
    pub idempotency_key: Option<String>,
    /// Structured metadata, as JSON text.
    pub metadata: String,
}

/// Response from an authorization.
#[derive(Debug, Clone)]
pub struct AuthorizeResponse {
    pub payment_id: PaymentId,
    pub provider_reference: String,
    pub authorized_amount: Money,
    /// The provider's raw response, as JSON text.
    pub raw_response: Option<String>,
}

/// Request to capture an authorized payment.
#[derive(Debug, Clone)]
pub struct CaptureRequest {
    pub payment_id: PaymentId,
    pub provider_reference: String,
    pub amount: Option<Money>,
    pub idempotency_key: Option<String>,
}

/// Response from a capture.
#[derive(Debug, Clone)]
pub struct CaptureResponse {
    pub payment_id: PaymentId,
    pub provider_reference: String,
    pub captured_amount: Money,
    /// The provider's raw response, as JSON text.
    pub raw_response: Option<String>,
}

/// Request to refund a payment.
#[derive(Debug, Clone)]
pub struct RefundRequest {
    pub payment_id: PaymentId,
    pub provider_reference: String,
    pub amount: Option<Money>,
    pub reason: Option<String>,
    pub idempotency_key: Option<String>,
}

/// Response from a refund.
#[derive(Debug, Clone)]
pub struct RefundResponse {
    pub payment_id: PaymentId,
    pub provider_reference: String,
    pub refund_reference: String,
    pub refunded_amount: Money,
    /// The provider's raw response, as JSON text.
    pub raw_response: Option<String>,
}

} // verus!
