use ledgerkit::event::{CanonicalEvent, EventKind};
use ledgerkit::event_store::InMemoryEventStore;
use ledgerkit::idempotency::{IdempotencyStatus, InMemoryIdempotencyStore};
use ledgerkit::time::{TimeDelta, UtcTime};

fn at(secs: i64) -> UtcTime {
    UtcTime::from_unix(secs, 0).unwrap()
}

#[test]
fn acquire_then_duplicate_until_expiry() {
    let mut store = InMemoryIdempotencyStore::new();
    assert!(store.try_acquire_at("k", 60, &at(1000)).is_none());
    let existing = store.try_acquire_at("k", 60, &at(1060)).unwrap();
    assert_eq!(existing.key, "k");
    assert_eq!(existing.status, IdempotencyStatus::InProgress);
    assert_eq!(existing.created_at, at(1000));
    assert_eq!(existing.expires_at, at(1060));
    // Expired strictly after its expiry time: acquired afresh.
    assert!(store.try_acquire_at("k", 60, &at(1061)).is_none());
    let renewed = store.get("k").unwrap().unwrap();
    assert_eq!(renewed.created_at, at(1061));
    assert_eq!(renewed.expires_at, at(1121));
}

#[test]
fn complete_fail_remove() {
    let mut store = InMemoryIdempotencyStore::default();
    assert!(store.try_acquire_at("a", 10, &at(0)).is_none());
    assert!(store.try_acquire_at("b", 10, &at(0)).is_none());
    store.complete("a", "{\"event_id\":\"e1\"}".to_string()).unwrap();
    store.fail("b").unwrap();
    let a = store.get("a").unwrap().unwrap();
    assert_eq!(a.status, IdempotencyStatus::Completed);
    assert_eq!(a.response.as_deref(), Some("{\"event_id\":\"e1\"}"));
    assert_eq!(store.get("b").unwrap().unwrap().status, IdempotencyStatus::Failed);
    // Marking an absent key changes nothing.
    store.complete("zzz", "{}".to_string()).unwrap();
    assert!(store.get("zzz").unwrap().is_none());
    store.remove("a").unwrap();
    assert!(store.get("a").unwrap().is_none());
    assert!(store.try_acquire_at("a", 10, &at(1)).is_none());
}

#[test]
fn acquire_with_clock_and_huge_ttl() {
    let mut store = InMemoryIdempotencyStore::new();
    assert!(matches!(store.try_acquire("k", 86400), Ok(None)));
    assert!(matches!(store.try_acquire("k", 86400), Ok(Some(_))));
    // A ttl that reads as a negative count of seconds expires at once.
    assert!(matches!(store.try_acquire("n", u64::MAX), Ok(None)));
    assert!(matches!(store.try_acquire("n", u64::MAX), Ok(None)));
    // A ttl that leaves the representable range is refused.
    assert!(store.try_acquire("far", i64::MAX as u64).is_err());
    assert!(store.get("far").unwrap().is_none());
}

#[test]
fn acquire_with_clock_reports_range_error() {
    let mut store = InMemoryIdempotencyStore::new();
    match store.try_acquire("far", i64::MAX as u64) {
        Err(e) => assert_eq!(e.0, "expiry time out of range"),
        Ok(_) => panic!("expected an error"),
    }
    // A zero ttl always fits and takes the lock.
    assert!(matches!(store.try_acquire("z", 0), Ok(None)));
    let rec = store.get("z").unwrap().unwrap();
    assert_eq!(rec.created_at, rec.expires_at);
}

#[test]
fn acquire_near_the_end_of_time() {
    let mut store = InMemoryIdempotencyStore::new();
    let late = at(ledgerkit::time::MAX_UNIX_SECS - 10);
    assert!(store.try_acquire_at("k", 10, &late).is_none());
    let rec = store.get("k").unwrap().unwrap();
    assert_eq!(rec.expires_at.timestamp(), ledgerkit::time::MAX_UNIX_SECS);
    let _ = TimeDelta::seconds(1).unwrap();
}

#[test]
fn event_store_keeps_order() {
    let mut store = InMemoryEventStore::new();
    assert_eq!(store.count(), 0);
    store.store(CanonicalEvent::new(EventKind::PaymentCreated));
    store.store(CanonicalEvent::new(EventKind::PaymentCaptured));
    assert_eq!(store.count(), 2);
    let all = store.all();
    assert_eq!(all[0].kind, EventKind::PaymentCreated);
    assert_eq!(all[1].kind, EventKind::PaymentCaptured);
    store.clear();
    assert_eq!(store.count(), 0);
    assert!(InMemoryEventStore::default().all().is_empty());
}

#[test]
fn live_record_is_returned_whatever_the_ttl() {
    let mut store = InMemoryIdempotencyStore::new();
    assert!(matches!(store.try_acquire("k", 60), Ok(None)));
    // A ttl whose expiry would leave the range still finds the live record.
    match store.try_acquire("k", i64::MAX as u64) {
        Ok(Some(rec)) => assert_eq!(rec.key, "k"),
        _ => panic!("expected the live record"),
    }
    let late = at(2000);
    assert!(store.try_acquire_checked_at("x", 60, &late).unwrap().is_none());
    let again = store.try_acquire_checked_at("x", i64::MAX as u64, &at(2010)).unwrap().unwrap();
    assert_eq!(again.expires_at, at(2060));
    match store.try_acquire_checked_at("y", i64::MAX as u64, &late) {
        Err(e) => assert_eq!(e.0, "expiry time out of range"),
        Ok(_) => panic!("expected an error"),
    }
}

#[test]
fn acquired_key_answers_after_marks() {
    let mut store = InMemoryIdempotencyStore::new();
    assert!(store.try_acquire_checked_at("k", 100, &at(50)).unwrap().is_none());
    store.complete("k", "{\"event_id\":\"e\"}".to_string()).unwrap();
    store.fail("k").unwrap();
    store.complete("other", "{}".to_string()).unwrap();
    let rec = store.try_acquire_checked_at("k", 1, &at(150)).unwrap().unwrap();
    assert_eq!(rec.status, IdempotencyStatus::Failed);
    assert_eq!(rec.response.as_deref(), Some("{\"event_id\":\"e\"}"));
    assert_eq!(rec.created_at, at(50));
    assert_eq!(rec.expires_at, at(150));
    let again = store.get("k").unwrap().unwrap();
    assert_eq!(again.expires_at, at(150));
    assert!(store.try_acquire_checked_at("k", 1, &at(151)).unwrap().is_none());
}
