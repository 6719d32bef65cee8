//! Payment identifiers, the payment state machine and payment status.

use vstd::prelude::*;
use crate::money::Money;
use crate::provider::ProviderId;
use crate::time::UtcTime;

verus! {

/// Length of the hyphenated text of a UUID.
pub const UUID_TEXT_LEN: usize = 36;

/// Calls `uuid::Uuid::new_v4` and renders it with `to_string`, which writes
/// the hyphenated form of 36 characters. The value is random; nothing else
/// is stated of it.
#[verifier::external_body]
pub(crate) fn new_uuid_text() -> (r: String)
    ensures
        r@.len() == UUID_TEXT_LEN,
{
    uuid::Uuid::new_v4().to_string()
}

/// Unique payment identifier.
#[derive(Debug, Clone, PartialEq, Eq, Hash)]
pub struct PaymentId(pub String);

impl View for PaymentId {
    type V = Seq<char>;

    open spec fn view(&self) -> Seq<char> {
        self.0@
    }
}

impl PaymentId {
    /// A fresh random identifier (a hyphenated UUID).
    pub fn new() -> (r: Self)
        ensures
            r@.len() == UUID_TEXT_LEN,
    {
        Self(new_uuid_text())
    }

    pub fn from_str(s: &str) -> (r: Self)
        ensures
            r@ == s@,
    {
        Self(String::from_str(s))
    }

    /// The identifier as text (what the identifier displays as).
    pub fn to_string(&self) -> (r: String)
        ensures
            r@ == self@,
    {
        self.0.clone()
    }

    /// A second identifier with the same text.
    pub fn duplicate(&self) -> (r: Self)
        ensures
            r@ == self@,
    {
        Self(self.0.clone())
    }
}

impl Default for PaymentId {
    fn default() -> (r: Self)
        ensures
            r@.len() == UUID_TEXT_LEN,
    {
        Self::new()
    }
}

/// High-level payment state machine.
#[derive(Debug, Clone, Copy, PartialEq, Eq, Hash, Structural)]
pub enum PaymentState {
    /// Payment has been created but not yet submitted.
    Created,
    /// Payment is being processed.
    Processing,
    /// Payment has been authorized (funds reserved).
    Authorized,
    /// Payment has been captured (funds transferred).
    Captured,
    /// Payment has partially been captured.
    PartiallyCaptured,
    /// Payment has failed.
    Failed,
    /// Payment has been cancelled/voided.
    Cancelled,
    /// Payment has been refunded.
    Refunded,
    /// Payment has been partially refunded.
    PartiallyRefunded,
    /// A chargeback/dispute has been opened.
    Disputed,
    /// Payment has expired (e.g., authorization timeout).
    Expired,
}

impl PaymentState {
    /// The states that count as terminal.
    pub open spec fn spec_is_terminal(self) -> bool {
        match self {
            PaymentState::Captured | PaymentState::Failed | PaymentState::Cancelled
            | PaymentState::Refunded | PaymentState::Expired => true,
            _ => false,
        }
    }

    /// The states reachable in one step, in the order they are listed.
    pub open spec fn transitions(self) -> Seq<PaymentState> {
        match self {
            PaymentState::Created => seq![
                PaymentState::Processing,
                PaymentState::Cancelled,
                PaymentState::Expired,
            ],
            PaymentState::Processing => seq![
                PaymentState::Authorized,
                PaymentState::Captured,
                PaymentState::Failed,
            ],
            PaymentState::Authorized => seq![
                PaymentState::Captured,
                PaymentState::PartiallyCaptured,
                PaymentState::Cancelled,
                PaymentState::Expired,
            ],
            PaymentState::Captured => seq![
                PaymentState::Refunded,
                PaymentState::PartiallyRefunded,
                PaymentState::Disputed,
            ],
            PaymentState::PartiallyCaptured => seq![
                PaymentState::Captured,
                PaymentState::Refunded,
                PaymentState::PartiallyRefunded,
            ],
            PaymentState::PartiallyRefunded => seq![
                PaymentState::Refunded,
                PaymentState::Disputed,
            ],
            PaymentState::Failed | PaymentState::Cancelled | PaymentState::Expired => seq![],
            PaymentState::Refunded => seq![],
            PaymentState::Disputed => seq![PaymentState::Refunded, PaymentState::Captured],
        }
    }

    /// Returns true if this is a terminal state.
    pub fn is_terminal(&self) -> (r: bool)
        ensures
            r == self.spec_is_terminal(),
    {
        match self {
            PaymentState::Captured | PaymentState::Failed | PaymentState::Cancelled
            | PaymentState::Refunded | PaymentState::Expired => true,
            _ => false,
        }
    }

    /// Returns the valid next states from the current state.
    pub fn valid_transitions(&self) -> (r: Vec<PaymentState>)
        ensures
            r@ == self.transitions(),
    {
        let v = match self {
            PaymentState::Created => vec![
                PaymentState::Processing,
                PaymentState::Cancelled,
                PaymentState::Expired,
            ],
            PaymentState::Processing => vec![
                PaymentState::Authorized,
                PaymentState::Captured,
                PaymentState::Failed,
            ],
            PaymentState::Authorized => vec![
                PaymentState::Captured,
                PaymentState::PartiallyCaptured,
                PaymentState::Cancelled,
                PaymentState::Expired,
            ],
            PaymentState::Captured => vec![
                PaymentState::Refunded,
                PaymentState::PartiallyRefunded,
                PaymentState::Disputed,
            ],
            PaymentState::PartiallyCaptured => vec![
                PaymentState::Captured,
                PaymentState::Refunded,
                PaymentState::PartiallyRefunded,
            ],
            PaymentState::PartiallyRefunded => vec![
                PaymentState::Refunded,
                PaymentState::Disputed,
            ],
            PaymentState::Failed | PaymentState::Cancelled | PaymentState::Expired => vec![],
            PaymentState::Refunded => vec![],
            PaymentState::Disputed => vec![PaymentState::Refunded, PaymentState::Captured],
        };
        assert(v@ =~= self.transitions());
        v
    }

    /// Check if transitioning to `next` is valid.
    pub fn can_transition_to(&self, next: PaymentState) -> (r: bool)
        ensures
            r == self.transitions().contains(next),
    {
        let v = self.valid_transitions();
        let mut i: usize = 0;
        while i < v.len()
            invariant
                i <= v@.len(),
                v@ == self.transitions(),
                forall|j: int| 0 <= j < i ==> v@[j] != next,
            decreases v.len() - i,
        {
            if v[i] == next {
                assert(v@[i as int] == next);
                return true;
            }
            i = i + 1;
        }
        proof {
            if self.transitions().contains(next) {
                let j = choose|j: int| 0 <= j < v@.len() && v@[j] == next;
                assert(v@[j] != next);
            }
        }
        false
    }
}

/// A state with no outgoing transition: a payment that reaches it stays.
pub open spec fn is_final(s: PaymentState) -> bool {
    s.transitions().len() == 0
}

/// Failed, cancelled, expired and refunded payments admit no further
/// transition.
pub proof fn law_closed_states_have_no_transitions(s: PaymentState)
    requires
        s == PaymentState::Failed || s == PaymentState::Cancelled || s == PaymentState::Expired
            || s == PaymentState::Refunded,
    ensures
        is_final(s),
        forall|n: PaymentState| !s.transitions().contains(n),
{
}

/// Every terminal state other than `Captured` admits no further transition;
/// a captured payment can still be refunded or disputed.
pub proof fn law_terminal_states_are_final_except_captured(s: PaymentState)
    requires
        s.spec_is_terminal(),
        s != PaymentState::Captured,
    ensures
        is_final(s),
{
}

/// No state transitions to itself.
pub proof fn law_no_self_transition(s: PaymentState)
    ensures
        !s.transitions().contains(s),
{
    assert forall|i: int| 0 <= i < s.transitions().len() implies s.transitions()[i] != s by {}
}

/// No state leads back to `Created`: it is only ever the initial state.
pub proof fn law_created_is_never_reentered(s: PaymentState)
    ensures
        !s.transitions().contains(PaymentState::Created),
{
    assert forall|i: int| 0 <= i < s.transitions().len() implies s.transitions()[i]
        != PaymentState::Created by {}
}

/// Each state lists every successor once.
pub proof fn law_transitions_are_distinct(s: PaymentState)
    ensures
        s.transitions().no_duplicates(),
{
}

/// How each state is entered, state by state (the lifecycle read
/// backwards): a payment starts processing only once created; it is
/// authorized, or fails, only while processing; it is partially captured
/// only once authorized; it is captured while processing, once authorized,
/// after a partial capture, or when a dispute is resolved for the merchant;
/// it is cancelled (voided) or expires only while created or authorized;
/// it is partially refunded only after a capture of some or all of it; it
/// is refunded after a capture, a partial capture, a partial refund, or a
/// dispute; it is disputed only after a capture or a partial refund; and
/// no state leads back to created.
pub proof fn law_how_each_state_is_entered(s: PaymentState, t: PaymentState)
    ensures
        t == PaymentState::Created ==> !s.transitions().contains(t),
        t == PaymentState::Processing ==> (s.transitions().contains(t) <==> s
            == PaymentState::Created),
        t == PaymentState::Authorized ==> (s.transitions().contains(t) <==> s
            == PaymentState::Processing),
        t == PaymentState::Failed ==> (s.transitions().contains(t) <==> s
            == PaymentState::Processing),
        t == PaymentState::PartiallyCaptured ==> (s.transitions().contains(t) <==> s
            == PaymentState::Authorized),
        t == PaymentState::Captured ==> (s.transitions().contains(t) <==> (s
            == PaymentState::Processing || s == PaymentState::Authorized || s
            == PaymentState::PartiallyCaptured || s == PaymentState::Disputed)),
        t == PaymentState::Cancelled ==> (s.transitions().contains(t) <==> (s
            == PaymentState::Created || s == PaymentState::Authorized)),
        t == PaymentState::Expired ==> (s.transitions().contains(t) <==> (s
            == PaymentState::Created || s == PaymentState::Authorized)),
        t == PaymentState::PartiallyRefunded ==> (s.transitions().contains(t) <==> (s
            == PaymentState::Captured || s == PaymentState::PartiallyCaptured)),
        t == PaymentState::Refunded ==> (s.transitions().contains(t) <==> (s
            == PaymentState::Captured || s == PaymentState::PartiallyCaptured || s
            == PaymentState::PartiallyRefunded || s == PaymentState::Disputed)),
        t == PaymentState::Disputed ==> (s.transitions().contains(t) <==> (s
            == PaymentState::Captured || s == PaymentState::PartiallyRefunded)),
{
    let ts = s.transitions();
    if ts.contains(t) {
        let i = choose|i: int| 0 <= i < ts.len() && ts[i] == t;
        assert(ts[i] == t);
    }
    assert(s == PaymentState::Created ==> ts[0] == PaymentState::Processing && ts[1]
        == PaymentState::Cancelled && ts[2] == PaymentState::Expired);
    assert(s == PaymentState::Processing ==> ts[0] == PaymentState::Authorized && ts[1]
        == PaymentState::Captured && ts[2] == PaymentState::Failed);
    assert(s == PaymentState::Authorized ==> ts[0] == PaymentState::Captured && ts[1]
        == PaymentState::PartiallyCaptured && ts[2] == PaymentState::Cancelled && ts[3]
        == PaymentState::Expired);
    assert(s == PaymentState::Captured ==> ts[0] == PaymentState::Refunded && ts[1]
        == PaymentState::PartiallyRefunded && ts[2] == PaymentState::Disputed);
    assert(s == PaymentState::PartiallyCaptured ==> ts[0] == PaymentState::Captured && ts[1]
        == PaymentState::Refunded && ts[2] == PaymentState::PartiallyRefunded);
    assert(s == PaymentState::PartiallyRefunded ==> ts[0] == PaymentState::Refunded && ts[1]
        == PaymentState::Disputed);
    assert(s == PaymentState::Disputed ==> ts[0] == PaymentState::Refunded && ts[1]
        == PaymentState::Captured);
}

/// How many ways each state can be left: three from created, processing,
/// captured and a partial capture; four once authorized; two from a
/// partial refund or a dispute; none from the closed states.
pub proof fn law_number_of_successors(s: PaymentState)
    ensures
        s.transitions().len() == (match s {
            PaymentState::Authorized => 4nat,
            PaymentState::Created | PaymentState::Processing | PaymentState::Captured
            | PaymentState::PartiallyCaptured => 3nat,
            PaymentState::PartiallyRefunded | PaymentState::Disputed => 2nat,
            _ => 0nat,
        }),
{
}

/// The terminal states are exactly the outcomes: captured, failed,
/// cancelled, refunded and expired. A payment that is created, processing,
/// authorized, partly captured or refunded, or disputed is still under way.
pub proof fn law_terminal_states_are_outcomes(s: PaymentState)
    ensures
        s.spec_is_terminal() <==> (s == PaymentState::Captured || s == PaymentState::Failed || s
            == PaymentState::Cancelled || s == PaymentState::Refunded || s
            == PaymentState::Expired),
{
}

/// Payment status includes the state plus metadata.
#[derive(Debug, Clone)]
pub struct PaymentStatus {
    pub payment_id: PaymentId,
    pub state: PaymentState,
    pub amount: Money,
    pub provider_id: Option<ProviderId>,
    pub provider_reference: Option<String>,
    pub created_at: UtcTime,
    pub updated_at: UtcTime,
    /// Structured metadata, as JSON text.
    pub metadata: String,
}

/// Payment method types.
#[derive(Debug, Clone, PartialEq, Eq, Hash)]
pub enum PaymentMethod {
    Card,
    BankTransfer,
    DirectDebit,
    Wallet,
    Crypto,
    BuyNowPayLater,
    Voucher,
    Other(String),
}

} // verus!
