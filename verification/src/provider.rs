//! Payment provider identifiers and capabilities.

use vstd::prelude::*;

verus! {

/// Unique identifier for a payment provider/PSP.
#[derive(Debug, Clone, PartialEq, Eq, Hash)]
pub struct ProviderId(pub String);

impl View for ProviderId {
    type V = Seq<char>;

    open spec fn view(&self) -> Seq<char> {
        self.0@
    }
}

impl ProviderId {
    pub fn new(id: &str) -> (r: Self)
        ensures
            r@ == id@,
    {
        Self(String::from_str(id))
    }

    /// The identifier as text (what the identifier displays as).
    pub fn to_string(&self) -> (r: String)
        ensures
            r@ == self@,
    {
        self.0.clone()
    }
}

/// Capability flags for a payment provider.
#[derive(Debug, Clone, Copy, PartialEq, Eq, Hash)]
pub enum ProviderCapability {
    /// Supports authorization + capture as separate steps
    AuthCapture,
    /// Supports single-step payment (direct capture)
    DirectCapture,
    /// Supports partial captures
    PartialCapture,
    /// Supports refunds
    Refund,
    /// Supports partial refunds
    PartialRefund,
    /// Supports void/cancel of authorized payments
    Void,
    /// Supports webhook notifications
    Webhooks,
    /// Supports 3DS authentication
    ThreeDSecure,
    /// Supports recurring/subscription payments
    Recurring,
    /// Supports payouts
    Payouts,
    /// Supports tokenization
    Tokenization,
    /// Supports multi-currency
    MultiCurrency,
}

} // verus!
