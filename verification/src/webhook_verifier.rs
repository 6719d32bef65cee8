//! The webhook verification interface that provider integrations implement.

use vstd::prelude::*;
use crate::webhook::{RawWebhook, VerificationResult};

verus! {

/// Trait for verifying webhook signatures from payment providers.
///
/// Each provider has its own signing mechanism (HMAC-SHA256, RSA, etc.).
/// Implementations of this trait handle the provider-specific verification logic.
pub trait WebhookVerifier: Send + Sync {
    /// The error type for verification failures.
    type Error;

    /// Verify the authenticity of an incoming webhook.
    ///
    /// Checks the signature, timestamp tolerance, and any provider-specific
    /// validation rules.
    fn verify(&self, webhook: &RawWebhook) -> Result<VerificationResult, Self::Error>;
}

} // verus!
