//! Error categories and the top-level error type.

use vstd::prelude::*;
use crate::payment::PaymentState;
use crate::text::{decimal, push_decimal, push_str};

verus! {

/// Top-level error type for ledgerkit operations.
#[derive(Debug, Clone)]
pub enum LkError {
    Provider {
        category: ErrorCategory,
        message: String,
        provider_code: Option<String>,
        retryable: bool,
    },
    Webhook(String),
    InvalidStateTransition { from: PaymentState, to: PaymentState },
    Validation(String),
    Serialization(String),
    Configuration(String),
    Timeout { duration_ms: u64 },
    NotFound { entity: String, id: String },
    IdempotencyConflict { key: String },
    Internal(String),
}

/// Categories of provider/payment errors for consistent handling.
#[derive(Debug, Clone, Copy, PartialEq, Eq, Hash, Structural)]
pub enum ErrorCategory {
    /// Authentication/authorization failure with provider
    Authentication,
    /// Request validation failure at provider
    InvalidRequest,
    /// Card/payment method declined
    Declined,
    /// Insufficient funds
    InsufficientFunds,
    /// Card expired
    CardExpired,
    /// Fraud check failed
    FraudSuspected,
    /// Provider rate limit exceeded
    RateLimited,
    /// Provider service unavailable
    ProviderUnavailable,
    /// Network/connection error
    NetworkError,
    /// Provider returned unexpected response
    UnexpectedResponse,
    /// Operation timed out
    Timeout,
    /// Idempotency conflict
    IdempotencyConflict,
    /// Generic processing error
    ProcessingError,
    /// Unknown/unmapped error
    Unknown,
}

impl ErrorCategory {
    /// The categories whose errors are generally retryable.
    pub open spec fn spec_is_retryable(self) -> bool {
        match self {
            ErrorCategory::RateLimited | ErrorCategory::ProviderUnavailable
            | ErrorCategory::NetworkError | ErrorCategory::Timeout => true,
            _ => false,
        }
    }

    /// The snake-case name under which the category is written.
    pub open spec fn name(self) -> Seq<char> {
        match self {
            ErrorCategory::Authentication => "authentication"@,
            ErrorCategory::InvalidRequest => "invalid_request"@,
            ErrorCategory::Declined => "declined"@,
            ErrorCategory::InsufficientFunds => "insufficient_funds"@,
            ErrorCategory::CardExpired => "card_expired"@,
            ErrorCategory::FraudSuspected => "fraud_suspected"@,
            ErrorCategory::RateLimited => "rate_limited"@,
            ErrorCategory::ProviderUnavailable => "provider_unavailable"@,
            ErrorCategory::NetworkError => "network_error"@,
            ErrorCategory::UnexpectedResponse => "unexpected_response"@,
            ErrorCategory::Timeout => "timeout"@,
            ErrorCategory::IdempotencyConflict => "idempotency_conflict"@,
            ErrorCategory::ProcessingError => "processing_error"@,
            ErrorCategory::Unknown => "unknown"@,
        }
    }

    /// Whether errors of this category are generally retryable.
    pub fn is_retryable(&self) -> (r: bool)
        ensures
            r == self.spec_is_retryable(),
    {
        match self {
            ErrorCategory::RateLimited | ErrorCategory::ProviderUnavailable
            | ErrorCategory::NetworkError | ErrorCategory::Timeout => true,
            _ => false,
        }
    }

    /// The category's snake-case name (what the category displays as).
    pub fn to_string(&self) -> (r: String)
        ensures
            r@ == self.name(),
    {
        match self {
            ErrorCategory::Authentication => String::from_str("authentication"),
            ErrorCategory::InvalidRequest => String::from_str("invalid_request"),
            ErrorCategory::Declined => String::from_str("declined"),
            ErrorCategory::InsufficientFunds => String::from_str("insufficient_funds"),
            ErrorCategory::CardExpired => String::from_str("card_expired"),
            ErrorCategory::FraudSuspected => String::from_str("fraud_suspected"),
            ErrorCategory::RateLimited => String::from_str("rate_limited"),
            ErrorCategory::ProviderUnavailable => String::from_str("provider_unavailable"),
            ErrorCategory::NetworkError => String::from_str("network_error"),
            ErrorCategory::UnexpectedResponse => String::from_str("unexpected_response"),
            ErrorCategory::Timeout => String::from_str("timeout"),
            ErrorCategory::IdempotencyConflict => String::from_str("idempotency_conflict"),
            ErrorCategory::ProcessingError => String::from_str("processing_error"),
            ErrorCategory::Unknown => String::from_str("unknown"),
        }
    }
}

/// The name of a payment state as its variant is written.
pub open spec fn state_name(s: PaymentState) -> Seq<char> {
    match s {
        PaymentState::Created => "Created"@,
        PaymentState::Processing => "Processing"@,
        PaymentState::Authorized => "Authorized"@,
        PaymentState::Captured => "Captured"@,
        PaymentState::PartiallyCaptured => "PartiallyCaptured"@,
        PaymentState::Failed => "Failed"@,
        PaymentState::Cancelled => "Cancelled"@,
        PaymentState::Refunded => "Refunded"@,
        PaymentState::PartiallyRefunded => "PartiallyRefunded"@,
        PaymentState::Disputed => "Disputed"@,
        PaymentState::Expired => "Expired"@,
    }
}

fn state_name_text(s: PaymentState) -> (r: String)
    ensures
        r@ == state_name(s),
{
    match s {
        PaymentState::Created => String::from_str("Created"),
        PaymentState::Processing => String::from_str("Processing"),
        PaymentState::Authorized => String::from_str("Authorized"),
        PaymentState::Captured => String::from_str("Captured"),
        PaymentState::PartiallyCaptured => String::from_str("PartiallyCaptured"),
        PaymentState::Failed => String::from_str("Failed"),
        PaymentState::Cancelled => String::from_str("Cancelled"),
        PaymentState::Refunded => String::from_str("Refunded"),
        PaymentState::PartiallyRefunded => String::from_str("PartiallyRefunded"),
        PaymentState::Disputed => String::from_str("Disputed"),
        PaymentState::Expired => String::from_str("Expired"),
    }
}

impl LkError {
    /// The errors that are retryable: provider errors marked so, timeouts and
    /// internal errors.
    pub open spec fn spec_is_retryable(&self) -> bool {
        match self {
            LkError::Provider { retryable, .. } => *retryable,
            LkError::Timeout { .. } => true,
            LkError::Internal(_) => true,
            _ => false,
        }
    }

    /// The message that the error displays as.
    pub open spec fn message_text(&self) -> Seq<char> {
        match self {
            LkError::Provider { category, message, .. } => "provider error: "@ + category.name()
                + " - "@ + message@,
            LkError::Webhook(m) => "webhook error: "@ + m@,
            LkError::InvalidStateTransition { from, to } => "invalid state transition from "@
                + state_name(*from) + " to "@ + state_name(*to),
            LkError::Validation(m) => "validation error: "@ + m@,
            LkError::Serialization(m) => "serialization error: "@ + m@,
            LkError::Configuration(m) => "configuration error: "@ + m@,
            LkError::Timeout { duration_ms } => "timeout after "@ + decimal(*duration_ms as nat)
                + "ms"@,
            LkError::NotFound { entity, id } => "not found: "@ + entity@ + " "@ + id@,
            LkError::IdempotencyConflict { key } => "idempotency conflict: key="@ + key@,
            LkError::Internal(m) => "internal error: "@ + m@,
        }
    }

    /// Returns true if this error is retryable.
    pub fn is_retryable(&self) -> (r: bool)
        ensures
            r == self.spec_is_retryable(),
    {
        match self {
            LkError::Provider { retryable, .. } => *retryable,
            LkError::Timeout { .. } => true,
            LkError::Internal(_) => true,
            _ => false,
        }
    }

    /// Create a provider error, retryable exactly when its category is.
    pub fn provider(category: ErrorCategory, message: String) -> (r: Self)
        ensures
            r == (LkError::Provider {
                category,
                message,
                provider_code: None,
                retryable: category.spec_is_retryable(),
            }),
    {
        let retryable = category.is_retryable();
        LkError::Provider { category, message, provider_code: None, retryable }
    }

    /// The message that the error displays as.
    pub fn to_string(&self) -> (r: String)
        ensures
            r@ == self.message_text(),
    {
        let mut s = String::new();
        match self {
            LkError::Provider { category, message, .. } => {
                push_str(&mut s, "provider error: ");
                let name = category.to_string();
                push_str(&mut s, name.as_str());
                push_str(&mut s, " - ");
                push_str(&mut s, message.as_str());
            },
            LkError::Webhook(m) => {
                push_str(&mut s, "webhook error: ");
                push_str(&mut s, m.as_str());
            },
            LkError::InvalidStateTransition { from, to } => {
                push_str(&mut s, "invalid state transition from ");
                let a = state_name_text(*from);
                push_str(&mut s, a.as_str());
                push_str(&mut s, " to ");
                let b = state_name_text(*to);
                push_str(&mut s, b.as_str());
            },
            LkError::Validation(m) => {
                push_str(&mut s, "validation error: ");
                push_str(&mut s, m.as_str());
            },
            LkError::Serialization(m) => {
                push_str(&mut s, "serialization error: ");
                push_str(&mut s, m.as_str());
            },
            LkError::Configuration(m) => {
                push_str(&mut s, "configuration error: ");
                push_str(&mut s, m.as_str());
            },
            LkError::Timeout { duration_ms } => {
                push_str(&mut s, "timeout after ");
                push_decimal(&mut s, *duration_ms);
                push_str(&mut s, "ms");
            },
            LkError::NotFound { entity, id } => {
                push_str(&mut s, "not found: ");
                push_str(&mut s, entity.as_str());
                push_str(&mut s, " ");
                push_str(&mut s, id.as_str());
            },
            LkError::IdempotencyConflict { key } => {
                push_str(&mut s, "idempotency conflict: key=");
                push_str(&mut s, key.as_str());
            },
            LkError::Internal(m) => {
                push_str(&mut s, "internal error: ");
                push_str(&mut s, m.as_str());
            },
        }
        assert(s@ =~= self.message_text());
        s
    }
}

/// A provider error is retryable exactly when its category is.
pub proof fn law_provider_error_retryable_iff_category(category: ErrorCategory, message: String)
    ensures
        (LkError::Provider {
            category,
            message,
            provider_code: None,
            retryable: category.spec_is_retryable(),
        }).spec_is_retryable() == category.spec_is_retryable(),
{
}

/// The retryable categories are exactly the transient ones: a rate limit,
/// an unavailable provider, a network error and a timeout. Declines,
/// invalid requests, authentication, fraud and the rest are final.
pub proof fn law_retryable_categories_are_transient(c: ErrorCategory)
    ensures
        c.spec_is_retryable() <==> (c == ErrorCategory::RateLimited || c
            == ErrorCategory::ProviderUnavailable || c == ErrorCategory::NetworkError || c
            == ErrorCategory::Timeout),
{
}

/// Distinct error categories are written under distinct names.
pub proof fn law_category_names_are_distinct(a: ErrorCategory, b: ErrorCategory)
    ensures
        a.name() == b.name() ==> a == b,
{
    reveal_strlit("declined");
    reveal_strlit("card_expired");
    reveal_strlit("fraud_suspected");
    reveal_strlit("rate_limited");
    reveal_strlit("provider_unavailable");
    reveal_strlit("unexpected_response");
    reveal_strlit("authentication");
    reveal_strlit("unknown");
    reveal_strlit("processing_error");
    reveal_strlit("network_error");
    reveal_strlit("insufficient_funds");
    reveal_strlit("idempotency_conflict");
    reveal_strlit("invalid_request");
    reveal_strlit("timeout");
    assert("authentication"@.len() != "declined"@.len());
    assert("invalid_request"@.len() != "declined"@.len());
    assert("declined"@.len() != "card_expired"@.len());
    assert("authentication"@.len() != "card_expired"@.len());
    assert("insufficient_funds"@.len() != "card_expired"@.len());
    assert("invalid_request"@.len() != "card_expired"@.len());
    assert("declined"@.len() != "fraud_suspected"@.len());
    assert("card_expired"@.len() != "fraud_suspected"@.len());
    assert("authentication"@.len() != "fraud_suspected"@.len());
    assert("insufficient_funds"@.len() != "fraud_suspected"@.len());
    assert("declined"@.len() != "rate_limited"@.len());
    assert("fraud_suspected"@.len() != "rate_limited"@.len());
    assert("authentication"@.len() != "rate_limited"@.len());
    assert("insufficient_funds"@.len() != "rate_limited"@.len());
    assert("invalid_request"@.len() != "rate_limited"@.len());
    assert("declined"@.len() != "provider_unavailable"@.len());
    assert("card_expired"@.len() != "provider_unavailable"@.len());
    assert("fraud_suspected"@.len() != "provider_unavailable"@.len());
    assert("rate_limited"@.len() != "provider_unavailable"@.len());
    assert("authentication"@.len() != "provider_unavailable"@.len());
    assert("insufficient_funds"@.len() != "provider_unavailable"@.len());
    assert("invalid_request"@.len() != "provider_unavailable"@.len());
    assert("declined"@.len() != "unexpected_response"@.len());
    assert("card_expired"@.len() != "unexpected_response"@.len());
    assert("fraud_suspected"@.len() != "unexpected_response"@.len());
    assert("rate_limited"@.len() != "unexpected_response"@.len());
    assert("provider_unavailable"@.len() != "unexpected_response"@.len());
    assert("authentication"@.len() != "unexpected_response"@.len());
    assert("network_error"@.len() != "unexpected_response"@.len());
    assert("insufficient_funds"@.len() != "unexpected_response"@.len());
    assert("invalid_request"@.len() != "unexpected_response"@.len());
    assert("declined"@.len() != "unknown"@.len());
    assert("card_expired"@.len() != "unknown"@.len());
    assert("fraud_suspected"@.len() != "unknown"@.len());
    assert("rate_limited"@.len() != "unknown"@.len());
    assert("provider_unavailable"@.len() != "unknown"@.len());
    assert("unexpected_response"@.len() != "unknown"@.len());
    assert("authentication"@.len() != "unknown"@.len());
    assert("processing_error"@.len() != "unknown"@.len());
    assert("network_error"@.len() != "unknown"@.len());
    assert("insufficient_funds"@.len() != "unknown"@.len());
    assert("idempotency_conflict"@.len() != "unknown"@.len());
    assert("invalid_request"@.len() != "unknown"@.len());
    assert("declined"@.len() != "processing_error"@.len());
    assert("card_expired"@.len() != "processing_error"@.len());
    assert("fraud_suspected"@.len() != "processing_error"@.len());
    assert("rate_limited"@.len() != "processing_error"@.len());
    assert("provider_unavailable"@.len() != "processing_error"@.len());
    assert("unexpected_response"@.len() != "processing_error"@.len());
    assert("authentication"@.len() != "processing_error"@.len());
    assert("network_error"@.len() != "processing_error"@.len());
    assert("insufficient_funds"@.len() != "processing_error"@.len());
    assert("idempotency_conflict"@.len() != "processing_error"@.len());
    assert("invalid_request"@.len() != "processing_error"@.len());
    assert("timeout"@.len() != "processing_error"@.len());
    assert("declined"@.len() != "network_error"@.len());
    assert("card_expired"@.len() != "network_error"@.len());
    assert("fraud_suspected"@.len() != "network_error"@.len());
    assert("rate_limited"@.len() != "network_error"@.len());
    assert("provider_unavailable"@.len() != "network_error"@.len());
    assert("authentication"@.len() != "network_error"@.len());
    assert("insufficient_funds"@.len() != "network_error"@.len());
    assert("invalid_request"@.len() != "network_error"@.len());
    assert("declined"@.len() != "insufficient_funds"@.len());
    assert("authentication"@.len() != "insufficient_funds"@.len());
    assert("invalid_request"@.len() != "insufficient_funds"@.len());
    assert("declined"@.len() != "idempotency_conflict"@.len());
    assert("card_expired"@.len() != "idempotency_conflict"@.len());
    assert("fraud_suspected"@.len() != "idempotency_conflict"@.len());
    assert("rate_limited"@.len() != "idempotency_conflict"@.len());
    assert("unexpected_response"@.len() != "idempotency_conflict"@.len());
    assert("authentication"@.len() != "idempotency_conflict"@.len());
    assert("network_error"@.len() != "idempotency_conflict"@.len());
    assert("insufficient_funds"@.len() != "idempotency_conflict"@.len());
    assert("invalid_request"@.len() != "idempotency_conflict"@.len());
    assert("timeout"@.len() != "idempotency_conflict"@.len());
    assert("authentication"@.len() != "invalid_request"@.len());
    assert("declined"@.len() != "timeout"@.len());
    assert("card_expired"@.len() != "timeout"@.len());
    assert("fraud_suspected"@.len() != "timeout"@.len());
    assert("rate_limited"@.len() != "timeout"@.len());
    assert("provider_unavailable"@.len() != "timeout"@.len());
    assert("unexpected_response"@.len() != "timeout"@.len());
    assert("authentication"@.len() != "timeout"@.len());
    assert("network_error"@.len() != "timeout"@.len());
    assert("insufficient_funds"@.len() != "timeout"@.len());
    assert("invalid_request"@.len() != "timeout"@.len());
    assert("invalid_request"@[0] != "fraud_suspected"@[0]);
    assert("card_expired"@[0] != "rate_limited"@[0]);
    assert("timeout"@[0] != "unknown"@[0]);
    assert("provider_unavailable"@[0] != "idempotency_conflict"@[0]);
}

} // verus!
