//! Test fixtures describing sequences of payment events.

use vstd::prelude::*;
use crate::currency::{is_currency_of, known_code, Currency};
use crate::event::{opt_payment_id, CanonicalEvent, EventKind};
use crate::money::Money;
use crate::payment::{PaymentId, UUID_TEXT_LEN};
use crate::provider::ProviderId;
use crate::text_map::text_eq;

verus! {

/// A test fixture describing a sequence of payment events.
#[derive(Debug, Clone)]
pub struct Fixture {
    pub name: String,
    pub description: Option<String>,
    pub provider: String,
    pub events: Vec<FixtureEvent>,
}

/// A single event in a fixture sequence.
#[derive(Debug, Clone)]
pub struct FixtureEvent {
    pub kind: EventKind,
    pub amount_minor: i64,
    pub currency: Currency,
    pub delay_ms: Option<u64>,
    /// Structured metadata, as JSON text.
    pub metadata: Option<String>,
}

/// A fixture event read as plain values.
pub struct FixtureEventView {
    pub kind: EventKind,
    pub amount_minor: i64,
    pub currency: Currency,
    pub delay_ms: Option<u64>,
    pub metadata: Option<Seq<char>>,
}

impl View for FixtureEvent {
    type V = FixtureEventView;

    open spec fn view(&self) -> FixtureEventView {
        FixtureEventView {
            kind: self.kind,
            amount_minor: self.amount_minor,
            currency: self.currency,
            delay_ms: self.delay_ms,
            metadata: match self.metadata {
                Some(m) => Some(m@),
                None => None,
            },
        }
    }
}

/// A fixture event read as plain values, built from its parts.
pub open spec fn step(
    kind: EventKind,
    amount: i64,
    currency: Currency,
    delay_ms: Option<u64>,
    metadata: Option<Seq<char>>,
) -> FixtureEventView {
    FixtureEventView { kind, amount_minor: amount, currency, delay_ms, metadata }
}

/// The events of a fixture read as plain values.
pub open spec fn fixture_steps(f: Fixture) -> Seq<FixtureEventView> {
    f.events@.map_values(|e: FixtureEvent| e@)
}

/// The steps of a standard successful payment.
pub open spec fn successful_steps(amount: i64, currency: Currency) -> Seq<FixtureEventView> {
    seq![
        step(EventKind::PaymentCreated, amount, currency, None, None),
        step(EventKind::PaymentAuthorized, amount, currency, Some(100u64), None),
        step(EventKind::PaymentCaptured, amount, currency, Some(200u64), None),
    ]
}

/// The steps of a payment that fails during authorization.
pub open spec fn failed_steps(amount: i64, currency: Currency) -> Seq<FixtureEventView> {
    seq![
        step(EventKind::PaymentCreated, amount, currency, None, None),
        step(
            EventKind::PaymentFailed,
            amount,
            currency,
            Some(100u64),
            Some("{\"reason\":\"insufficient_funds\"}"@),
        ),
    ]
}

/// The steps of a captured payment that is fully refunded.
pub open spec fn refunded_steps(amount: i64, currency: Currency) -> Seq<FixtureEventView> {
    seq![
        step(EventKind::PaymentCreated, amount, currency, None, None),
        step(EventKind::PaymentAuthorized, amount, currency, Some(100u64), None),
        step(EventKind::PaymentCaptured, amount, currency, Some(200u64), None),
        step(
            EventKind::PaymentRefunded,
            amount,
            currency,
            Some(500u64),
            Some("{\"reason\":\"customer_request\"}"@),
        ),
    ]
}

/// Whether `f` is the standard successful-payment fixture for `amount` in
/// `currency`.
pub open spec fn is_successful_fixture(f: Fixture, amount: i64, currency: Currency) -> bool {
    &&& f.name@ == "successful_payment"@
    &&& f.description matches Some(d) && d@ == "A standard authorize -> capture flow"@
    &&& f.provider@ == "mock"@
    &&& fixture_steps(f) == successful_steps(amount, currency)
}

/// Whether `f` is the failed-payment fixture for `amount` in `currency`.
pub open spec fn is_failed_fixture(f: Fixture, amount: i64, currency: Currency) -> bool {
    &&& f.name@ == "failed_payment"@
    &&& f.description matches Some(d) && d@ == "A payment that fails during authorization"@
    &&& f.provider@ == "mock"@
    &&& fixture_steps(f) == failed_steps(amount, currency)
}

/// Whether `f` is the refunded-payment fixture for `amount` in `currency`.
pub open spec fn is_refunded_fixture(f: Fixture, amount: i64, currency: Currency) -> bool {
    &&& f.name@ == "refunded_payment"@
    &&& f.description matches Some(d) && d@ == "A captured payment that is fully refunded"@
    &&& f.provider@ == "mock"@
    &&& fixture_steps(f) == refunded_steps(amount, currency)
}

fn event(
    kind: EventKind,
    amount: i64,
    currency: Currency,
    delay_ms: Option<u64>,
    metadata: Option<String>,
) -> (r: FixtureEvent)
    ensures
        r.kind == kind,
        r.amount_minor == amount,
        r.currency == currency,
        r.delay_ms == delay_ms,
        r.metadata == metadata,
{
    FixtureEvent { kind, amount_minor: amount, currency, delay_ms, metadata }
}

impl Fixture {
    /// Generate a standard successful payment fixture: created, authorized
    /// after 100 ms, captured after 200 ms.
    pub fn successful_payment(amount: i64, currency: Currency) -> (r: Self)
        ensures
            is_successful_fixture(r, amount, currency),
    {
        let r = Self {
            name: String::from_str("successful_payment"),
            description: Some(String::from_str("A standard authorize -> capture flow")),
            provider: String::from_str("mock"),
            events: vec![
                event(EventKind::PaymentCreated, amount, currency, None, None),
                event(EventKind::PaymentAuthorized, amount, currency, Some(100), None),
                event(EventKind::PaymentCaptured, amount, currency, Some(200), None),
            ],
        };
        assert(fixture_steps(r) =~= successful_steps(amount, currency));
        r
    }

    /// Generate a failed payment fixture: created, then failed after 100 ms
    /// for insufficient funds.
    pub fn failed_payment(amount: i64, currency: Currency) -> (r: Self)
        ensures
            is_failed_fixture(r, amount, currency),
    {
        let r = Self {
            name: String::from_str("failed_payment"),
            description: Some(String::from_str("A payment that fails during authorization")),
            provider: String::from_str("mock"),
            events: vec![
                event(EventKind::PaymentCreated, amount, currency, None, None),
                event(
                    EventKind::PaymentFailed,
                    amount,
                    currency,
                    Some(100),
                    Some(String::from_str("{\"reason\":\"insufficient_funds\"}")),
                ),
            ],
        };
        assert(fixture_steps(r) =~= failed_steps(amount, currency));
        r
    }

    /// Generate a refund fixture: created, authorized after 100 ms,
    /// captured after 200 ms, refunded after 500 ms at the customer's request.
    pub fn refunded_payment(amount: i64, currency: Currency) -> (r: Self)
        ensures
            is_refunded_fixture(r, amount, currency),
    {
        let r = Self {
            name: String::from_str("refunded_payment"),
            description: Some(String::from_str("A captured payment that is fully refunded")),
            provider: String::from_str("mock"),
            events: vec![
                event(EventKind::PaymentCreated, amount, currency, None, None),
                event(EventKind::PaymentAuthorized, amount, currency, Some(100), None),
                event(EventKind::PaymentCaptured, amount, currency, Some(200), None),
                event(
                    EventKind::PaymentRefunded,
                    amount,
                    currency,
                    Some(500),
                    Some(String::from_str("{\"reason\":\"customer_request\"}")),
                ),
            ],
        };
        assert(fixture_steps(r) =~= refunded_steps(amount, currency));
        r
    }

    /// Convert fixture events to canonical events: one per fixture event,
    /// in order, of its kind and amount, all for one fresh payment id and
    /// for the fixture's provider.
    pub fn to_canonical_events(&self) -> (r: Vec<CanonicalEvent>)
        ensures
            r@.len() == self.events@.len(),
            forall|i: int|
                0 <= i < r@.len() ==> {
                    let e = #[trigger] r@[i];
                    &&& e.kind == self.events@[i].kind
                    &&& e.amount == Some(
                        Money { amount: self.events@[i].amount_minor, currency: self.events@[i].currency },
                    )
                    &&& e.provider_id matches Some(p) && p@ == self.provider@
                    &&& e.payment_id matches Some(p) && p@.len() == UUID_TEXT_LEN
                    &&& opt_payment_id(e.payment_id) == opt_payment_id(r@[0].payment_id)
                },
    {
        let payment_id = PaymentId::new();
        let provider_id = ProviderId::new(self.provider.as_str());
        let mut out: Vec<CanonicalEvent> = Vec::new();
        let mut i: usize = 0;
        while i < self.events.len()
            invariant
                i <= self.events@.len(),
                out@.len() == i,
                payment_id@.len() == UUID_TEXT_LEN,
                provider_id@ == self.provider@,
                forall|j: int|
                    0 <= j < i ==> {
                        let e = #[trigger] out@[j];
                        &&& e.kind == self.events@[j].kind
                        &&& e.amount == Some(
                            Money {
                                amount: self.events@[j].amount_minor,
                                currency: self.events@[j].currency,
                            },
                        )
                        &&& e.provider_id matches Some(p) && p@ == self.provider@
                        &&& e.payment_id matches Some(p) && p@ == payment_id@
                    },
            decreases self.events.len() - i,
        {
            let fe = &self.events[i];
            let ev = CanonicalEvent::new(fe.kind).with_payment_id(payment_id.duplicate()).with_provider(
                ProviderId::new(provider_id.0.as_str()),
            ).with_amount(Money::new(fe.amount_minor, fe.currency));
            out.push(ev);
            i = i + 1;
        }
        out
    }
}

/// The fixture kinds that `fixture_for_kind` knows.
pub open spec fn known_kind(kind: Seq<char>) -> bool {
    kind == "successful"@ || kind == "failed"@ || kind == "refunded"@
}

/// Whether `f` is the built-in fixture of `kind` for `amount` in `currency`.
pub open spec fn fixture_of_kind(kind: Seq<char>, amount: i64, currency: Currency, f: Fixture) -> bool {
    if kind == "successful"@ {
        is_successful_fixture(f, amount, currency)
    } else if kind == "failed"@ {
        is_failed_fixture(f, amount, currency)
    } else {
        is_refunded_fixture(f, amount, currency)
    }
}

/// A fixture chosen by its kind (`successful`, `failed` or `refunded`) in
/// the currency written as `currency` (see `Currency::from_code`). An
/// unknown kind is refused first; then an unknown currency code.
pub fn fixture_for_kind(kind: &str, amount: i64, currency: &str) -> (r: Result<Fixture, String>)
    ensures
        !known_kind(kind@) ==> (r matches Err(m) && m@ == "unknown fixture kind: "@ + kind@),
        known_kind(kind@) && !known_code(currency@) ==> (r matches Err(m) && m@
            == "unknown currency code: "@ + currency@),
        known_kind(kind@) && known_code(currency@) ==> (r matches Ok(f) && exists|c: Currency|
            #[trigger] is_currency_of(currency@, c) && fixture_of_kind(kind@, amount, c, f)),
{
    proof {
        reveal_strlit("successful");
        reveal_strlit("failed");
        reveal_strlit("refunded");
        assert("failed"@.len() == 6);
        assert("successful"@.len() == 10);
        assert("refunded"@.len() == 8);
        assert("failed"@ != "successful"@);
        assert("refunded"@ != "successful"@);
        assert("refunded"@ != "failed"@);
    }
    if !text_eq(kind, "successful") && !text_eq(kind, "failed") && !text_eq(kind, "refunded") {
        let mut m = String::from_str("unknown fixture kind: ");
        m.append(kind);
        return Err(m);
    }
    let c = match Currency::from_code(currency) {
        Some(c) => c,
        None => {
            let mut m = String::from_str("unknown currency code: ");
            m.append(currency);
            return Err(m);
        },
    };
    if text_eq(kind, "successful") {
        Ok(Fixture::successful_payment(amount, c))
    } else if text_eq(kind, "failed") {
        Ok(Fixture::failed_payment(amount, c))
    } else {
        Ok(Fixture::refunded_payment(amount, c))
    }
}

} // verus!
