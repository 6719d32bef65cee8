use ledgerkit::clock::{Clock, MockClock, SystemClock};
use ledgerkit::currency::Currency;
use ledgerkit::event::EventKind;
use ledgerkit::fixture::{fixture_for_kind, Fixture};
use ledgerkit::money::Money;
use ledgerkit::retry::{decide, RetryDecision};
use ledgerkit::runner::{simulation_fixtures, SimulatorRunner};
use ledgerkit::secret::{EnvSecretProvider, SecretError};
use ledgerkit::time::{TimeDelta, UtcTime};

#[test]
fn fixtures_become_events() {
    let f = Fixture::refunded_payment(7500, Currency::EUR);
    assert_eq!(f.name, "refunded_payment");
    assert_eq!(f.events.len(), 4);
    assert_eq!(f.events[3].delay_ms, Some(500));
    assert_eq!(f.events[3].metadata.as_deref(), Some(r#"{"reason":"customer_request"}"#));
    let events = f.to_canonical_events();
    assert_eq!(events.len(), 4);
    assert_eq!(events[0].kind, EventKind::PaymentCreated);
    assert_eq!(events[3].kind, EventKind::PaymentRefunded);
    assert_eq!(events[2].amount, Some(Money::new(7500, Currency::EUR)));
    assert_eq!(events[0].payment_id, events[3].payment_id);
    assert_eq!(events[1].provider_id.as_ref().unwrap().to_string(), "mock");
    let failed = Fixture::failed_payment(1, Currency::USD);
    assert_eq!(failed.events[1].metadata.as_deref(), Some(r#"{"reason":"insufficient_funds"}"#));
}

#[test]
fn fixture_kinds() {
    assert_eq!(fixture_for_kind("successful", 10, "USD").unwrap().name, "successful_payment");
    assert_eq!(fixture_for_kind("failed", 10, "USD").unwrap().name, "failed_payment");
    assert_eq!(fixture_for_kind("refunded", 10, "USD").unwrap().events[0].currency, Currency::USD);
    assert_eq!(fixture_for_kind("odd", 10, "USD").unwrap_err(), "unknown fixture kind: odd");
    assert_eq!(fixture_for_kind("odd", 10, "??").unwrap_err(), "unknown fixture kind: odd");
    let eur = fixture_for_kind("successful", 5000, "EUR").unwrap();
    assert!(eur.events.iter().all(|e| e.currency == Currency::EUR && e.amount_minor == 5000));
    let other = fixture_for_kind("failed", 7, "XYZ").unwrap();
    assert_eq!(other.events[0].currency.to_string(), "XYZ");
    assert_eq!(fixture_for_kind("refunded", 10, "usd").unwrap_err(), "unknown currency code: usd");
    assert_eq!(Currency::from_code("USDT"), Some(Currency::USDT));
    assert_eq!(Currency::from_code("EURO"), None);
}

#[test]
fn runner_collects_all_fixtures() {
    let mut runner = SimulatorRunner::default();
    for f in SimulatorRunner::builtin_fixtures() {
        runner.add_fixture(f);
    }
    assert_eq!(runner.fixtures().len(), 3);
    let events = runner.collect_events();
    assert_eq!(events.len(), 3 + 2 + 4);
    assert_eq!(events[3].amount, Some(Money::new(10000, Currency::USD)));
    // One payment id per fixture, a different one for each fixture.
    assert!(events[..3].iter().all(|e| e.payment_id == events[0].payment_id));
    assert!(events[3..5].iter().all(|e| e.payment_id == events[3].payment_id));
    assert!(events[5..].iter().all(|e| e.payment_id == events[5].payment_id));
    assert_ne!(events[0].payment_id, events[3].payment_id);
    let found = SimulatorRunner::find_builtin("failed_payment").unwrap();
    assert_eq!(found.name, "failed_payment");
    assert_eq!(found.provider, "mock");
    assert_eq!(found.events.len(), 2);
    assert_eq!(found.events[1].kind, EventKind::PaymentFailed);
    assert_eq!(found.events[1].amount_minor, 10000);
    let refunded = SimulatorRunner::find_builtin("refunded_payment").unwrap();
    assert_eq!(refunded.events.len(), 4);
    assert_eq!(refunded.events[0].currency, Currency::EUR);
    assert!(SimulatorRunner::find_builtin("missing").is_none());
}

#[test]
fn retry_decisions() {
    match decide(3, 0, 200) {
        RetryDecision::Retry { delay_ms, attempt } => {
            assert_eq!(attempt, 1);
            assert_eq!(delay_ms, 200);
        }
        _ => panic!("Expected retry"),
    }
    match decide(2, 2, 0) {
        RetryDecision::GiveUp { attempts_made, reason } => {
            assert_eq!(attempts_made, 2);
            assert_eq!(reason, "max retries (2) exhausted");
        }
        _ => panic!("Expected give up"),
    }
    assert!(matches!(decide(0, 0, 0), RetryDecision::GiveUp { .. }));
}

#[test]
fn secret_key_names() {
    assert_eq!(EnvSecretProvider::new().key_name("stripe_key"), "STRIPE_KEY");
    assert_eq!(EnvSecretProvider::with_prefix("LK").key_name("api-key"), "LK_API-KEY");
    assert_eq!(EnvSecretProvider::default().key_name("straße"), "STRASSE");
    assert_eq!(SecretError::NotFound("X".to_string()).to_string(), "secret not found: X");
}

#[test]
fn clocks() {
    let start = UtcTime::from_unix(100, 0).unwrap();
    let mut clock = MockClock::new(start);
    assert_eq!(clock.now(), start);
    clock.advance(TimeDelta::seconds(30).unwrap());
    assert_eq!(clock.now().timestamp(), 130);
    clock.set(UtcTime::from_unix(5, 0).unwrap());
    assert_eq!(clock.now().timestamp(), 5);
    assert!(SystemClock.now().timestamp() > 1_600_000_000);
}

#[test]
fn simulation_fixture_choice() {
    let all = simulation_fixtures(true, Some("ignored")).unwrap();
    assert_eq!(all.len(), 3);
    assert_eq!(all[2].name, "refunded_payment");
    let one = simulation_fixtures(false, Some("refunded_payment")).unwrap();
    assert_eq!(one.len(), 1);
    assert_eq!(one[0].events[3].amount_minor, 7500);
    let default = simulation_fixtures(false, None).unwrap();
    assert_eq!(default.len(), 1);
    assert_eq!(default[0].name, "successful_payment");
    assert_eq!(default[0].events[0].amount_minor, 5000);
    assert_eq!(default[0].events[0].currency, Currency::USD);
    assert_eq!(simulation_fixtures(false, Some("nope")).unwrap_err(), "fixture not found: nope");
}

#[test]
fn fixture_kinds_carry_provider_and_description() {
    let f = fixture_for_kind("refunded", 1, "GBP").unwrap();
    assert_eq!(f.provider, "mock");
    assert_eq!(f.description.as_deref(), Some("A captured payment that is fully refunded"));
}
