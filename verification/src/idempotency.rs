//! Idempotency records and the in-memory idempotency store.
//!
//! Provides deduplication for payment operations, ensuring that retried
//! requests don't result in duplicate charges.

use vstd::prelude::*;
use crate::event::opt_text;
use crate::text_map::TextMap;
use crate::time::{
    delta_in_range, nanos_in_range, now, TimeDelta, UtcTime, MAX_UNIX_SECS, MIN_UNIX_SECS,
    NANOS_PER_SEC,
};

verus! {

/// Status of an idempotent operation.
#[derive(Debug, Clone, Copy, PartialEq, Eq, Structural)]
pub enum IdempotencyStatus {
    /// Operation is in progress.
    InProgress,
    /// Operation completed successfully.
    Completed,
    /// Operation failed.
    Failed,
}

/// A stored idempotency record.
#[derive(Debug, Clone)]
pub struct IdempotencyRecord {
    /// The idempotency key.
    pub key: String,
    /// When this record was created.
    pub created_at: UtcTime,
    /// When this record expires.
    pub expires_at: UtcTime,
    /// The stored response (JSON text), if the operation completed.
    pub response: Option<String>,
    /// Current status of the operation.
    pub status: IdempotencyStatus,
}

/// A record read as plain values, its times in nanoseconds since the epoch.
pub struct RecordView {
    pub key: Seq<char>,
    pub created_at: int,
    pub expires_at: int,
    pub response: Option<Seq<char>>,
    pub status: IdempotencyStatus,
}

impl View for IdempotencyRecord {
    type V = RecordView;

    open spec fn view(&self) -> RecordView {
        RecordView {
            key: self.key@,
            created_at: self.created_at.total_nanos(),
            expires_at: self.expires_at.total_nanos(),
            response: opt_text(self.response),
            status: self.status,
        }
    }
}

impl IdempotencyRecord {
    /// A copy of the record.
    pub fn duplicate(&self) -> (r: Self)
        ensures
            r@ == self@,
    {
        IdempotencyRecord {
            key: self.key.clone(),
            created_at: self.created_at,
            expires_at: self.expires_at,
            response: match &self.response {
                Some(s) => Some(s.clone()),
                None => None,
            },
            status: self.status,
        }
    }
}

/// Error of the in-memory store.
#[derive(Debug, Clone)]
pub struct MemoryStoreError(pub String);

/// The seconds that a time-to-live of `ttl` amounts to once read as a
/// signed 64-bit count (values above the signed range wrap around).
pub open spec fn ttl_seconds(ttl: u64) -> int {
    if ttl <= i64::MAX { ttl as int } else { ttl as int - 0x1_0000_0000_0000_0000 }
}

/// The record written when a key is acquired at `now` for `ttl` seconds.
pub open spec fn fresh_record(key: Seq<char>, now: int, ttl: u64) -> RecordView {
    RecordView {
        key,
        created_at: now,
        expires_at: now + ttl_seconds(ttl) * NANOS_PER_SEC,
        response: None,
        status: IdempotencyStatus::InProgress,
    }
}

/// Whether the record stored under `key` is still live at `now` (expiry is
/// strictly before `now` for a dead one).
pub open spec fn live_at(m: Map<Seq<char>, RecordView>, key: Seq<char>, now: int) -> bool {
    m.contains_key(key) && !(m[key].expires_at < now)
}

/// Acquiring `key` at `now`: a live record is returned and nothing
/// changes; otherwise a fresh record replaces whatever was there and the
/// lock is taken (`None`).
pub open spec fn acquire(m: Map<Seq<char>, RecordView>, key: Seq<char>, ttl: u64, now: int) -> (
    Map<Seq<char>, RecordView>,
    Option<RecordView>,
) {
    if live_at(m, key, now) {
        (m, Some(m[key]))
    } else {
        (m.insert(key, fresh_record(key, now, ttl)), None)
    }
}

/// Whether a record written at `now` for `ttl` seconds expires within the
/// representable range.
pub open spec fn expiry_in_range(now: int, ttl: u64) -> bool {
    nanos_in_range(now + ttl_seconds(ttl) * NANOS_PER_SEC)
}

/// Acquiring `key` at `now` with the expiry time checked: a live record is
/// returned whatever the ttl; otherwise, when a fresh record's expiry
/// leaves the representable range, the store stays as it was and the
/// error says so; otherwise the lock is taken as in `acquire`.
pub open spec fn acquire_checked(
    m: Map<Seq<char>, RecordView>,
    key: Seq<char>,
    ttl: u64,
    now: int,
    after: Map<Seq<char>, RecordView>,
    r: Result<Option<IdempotencyRecord>, MemoryStoreError>,
) -> bool {
    if live_at(m, key, now) || expiry_in_range(now, ttl) {
        r matches Ok(o) && acquire(m, key, ttl, now) == (after, opt_record_view(o))
    } else {
        r matches Err(e) && e.0@ == "expiry time out of range"@ && after == m
    }
}

/// Marking the record under `key` with a status (and, for completion, a
/// response); an absent key changes nothing.
pub open spec fn mark(
    m: Map<Seq<char>, RecordView>,
    key: Seq<char>,
    status: IdempotencyStatus,
    response: Option<Seq<char>>,
) -> Map<Seq<char>, RecordView> {
    if m.contains_key(key) {
        let old_rec = m[key];
        m.insert(
            key,
            RecordView {
                status,
                response: if response is Some { response } else { old_rec.response },
                ..old_rec
            },
        )
    } else {
        m
    }
}

/// In-memory idempotency store for development and testing.
pub struct InMemoryIdempotencyStore {
    records: TextMap<IdempotencyRecord>,
}

impl View for InMemoryIdempotencyStore {
    type V = Map<Seq<char>, RecordView>;

    closed spec fn view(&self) -> Map<Seq<char>, RecordView> {
        self.records@.map_values(|r: IdempotencyRecord| r@)
    }
}

pub open spec fn opt_record_view(o: Option<IdempotencyRecord>) -> Option<RecordView> {
    match o {
        Some(r) => Some(r@),
        None => None,
    }
}

impl InMemoryIdempotencyStore {
    pub fn new() -> (r: Self)
        ensures
            r@ == Map::<Seq<char>, RecordView>::empty(),
    {
        let r = Self { records: TextMap::new() };
        assert(r@ =~= Map::<Seq<char>, RecordView>::empty());
        r
    }

    /// Try to acquire an idempotency lock for `key` at time `now`.
    ///
    /// Returns `None` if the key is new or its record has expired (lock
    /// acquired), and the record if the key already exists. Where a new
    /// record is written, its expiry time must lie within the representable
    /// range.
    pub fn try_acquire_at(&mut self, key: &str, ttl_secs: u64, now: &UtcTime) -> (r: Option<
        IdempotencyRecord,
    >)
        requires
            live_at(old(self)@, key@, now.total_nanos()) || expiry_in_range(
                now.total_nanos(),
                ttl_secs,
            ),
        ensures
            acquire(old(self)@, key@, ttl_secs, now.total_nanos()) == (final(self)@, opt_record_view(r)),
    {
        let ghost m = self@;
        if let Some(existing) = self.records.get(key) {
            if !existing.expires_at.is_before(now) {
                let copy = existing.duplicate();
                return Some(copy);
            }
        }
        let secs: i64 = if ttl_secs <= i64::MAX as u64 {
            ttl_secs as i64
        } else {
            (ttl_secs as i128 - 0x1_0000_0000_0000_0000i128) as i64
        };
        proof {
            use_type_invariant(now);
            now.lemma_wf();
            assert(secs as int == ttl_seconds(ttl_secs));
            assert(delta_in_range(secs * NANOS_PER_SEC));
        }
        let delta = TimeDelta::seconds(secs).unwrap();
        let expires_at = now.checked_add(delta).unwrap();
        let record = IdempotencyRecord {
            key: String::from_str(key),
            created_at: *now,
            expires_at,
            response: None,
            status: IdempotencyStatus::InProgress,
        };
        assert(record@ == fresh_record(key@, now.total_nanos(), ttl_secs));
        self.records.insert(String::from_str(key), record);
        assert(self@ =~= m.insert(key@, fresh_record(key@, now.total_nanos(), ttl_secs)));
        None
    }

    /// Try to acquire an idempotency lock for `key` at time `now`, checking
    /// the expiry time.
    ///
    /// A live record is returned whatever the ttl, and the store is left as
    /// it was. Otherwise the lock is taken (`Ok(None)`), or, when the expiry
    /// time would leave the representable range, an error is returned and
    /// the store is left as it was.
    pub fn try_acquire_checked_at(&mut self, key: &str, ttl_secs: u64, now: &UtcTime) -> (r: Result<
        Option<IdempotencyRecord>,
        MemoryStoreError,
    >)
        ensures
            acquire_checked(old(self)@, key@, ttl_secs, now.total_nanos(), final(self)@, r),
    {
        if let Some(existing) = self.records.get(key) {
            if !existing.expires_at.is_before(now) {
                return Ok(self.try_acquire_at(key, ttl_secs, now));
            }
        }
        let secs: i128 = if ttl_secs <= i64::MAX as u64 {
            ttl_secs as i128
        } else {
            ttl_secs as i128 - 0x1_0000_0000_0000_0000i128
        };
        proof {
            use_type_invariant(now);
            now.lemma_wf();
            assert(secs as int == ttl_seconds(ttl_secs));
            assert(!live_at(self@, key@, now.total_nanos()));
        }
        let total = now.as_total_nanos() + secs * NANOS_PER_SEC;
        if UtcTime::from_total_nanos(total).is_none() {
            return Err(MemoryStoreError(String::from_str("expiry time out of range")));
        }
        Ok(self.try_acquire_at(key, ttl_secs, now))
    }

    /// Try to acquire an idempotency lock for `key`, reading the current
    /// time from the system clock.
    ///
    /// Returns `Ok(None)` if the key is new (lock acquired) and
    /// `Ok(Some(record))` if the key already exists; an error, with the store
    /// unchanged, when a new record's expiry time would leave the
    /// representable range.
    pub fn try_acquire(&mut self, key: &str, ttl_secs: u64) -> (r: Result<
        Option<IdempotencyRecord>,
        MemoryStoreError,
    >)
        ensures
            exists|n: int|
                {
                    &&& 0 <= n
                    &&& #[trigger] nanos_in_range(n)
                    &&& acquire_checked(old(self)@, key@, ttl_secs, n, final(self)@, r)
                },
            MIN_UNIX_SECS <= ttl_seconds(ttl_secs) <= 0 ==> r is Ok,
            ttl_seconds(ttl_secs) > MAX_UNIX_SECS && !old(self)@.contains_key(key@) ==> r is Err,
    {
        let n = now();
        proof {
            use_type_invariant(&n);
            n.lemma_wf();
            assert(n.total_nanos() >= 0);
        }
        self.try_acquire_checked_at(key, ttl_secs, &n)
    }

    /// Mark an idempotent operation as completed with a response (JSON text).
    pub fn complete(&mut self, key: &str, response: String) -> (r: Result<(), MemoryStoreError>)
        ensures
            r is Ok,
            final(self)@ == mark(old(self)@, key@, IdempotencyStatus::Completed, Some(response@)),
    {
        let ghost m = self@;
        let found = match self.records.get(key) {
            Some(rec) => Some(rec.duplicate()),
            None => None,
        };
        if let Some(rec) = found {
            let updated = IdempotencyRecord {
                response: Some(response),
                status: IdempotencyStatus::Completed,
                ..rec
            };
            self.records.insert(String::from_str(key), updated);
            assert(self@ =~= mark(m, key@, IdempotencyStatus::Completed, Some(response@)));
        } else {
            assert(self@ =~= mark(m, key@, IdempotencyStatus::Completed, Some(response@)));
        }
        Ok(())
    }

    /// Mark an idempotent operation as failed.
    pub fn fail(&mut self, key: &str) -> (r: Result<(), MemoryStoreError>)
        ensures
            r is Ok,
            final(self)@ == mark(old(self)@, key@, IdempotencyStatus::Failed, None),
    {
        let ghost m = self@;
        let found = match self.records.get(key) {
            Some(rec) => Some(rec.duplicate()),
            None => None,
        };
        if let Some(rec) = found {
            let updated = IdempotencyRecord { status: IdempotencyStatus::Failed, ..rec };
            self.records.insert(String::from_str(key), updated);
            assert(self@ =~= mark(m, key@, IdempotencyStatus::Failed, None));
        } else {
            assert(self@ =~= mark(m, key@, IdempotencyStatus::Failed, None));
        }
        Ok(())
    }

    /// Get an existing idempotency record.
    pub fn get(&self, key: &str) -> (r: Result<Option<IdempotencyRecord>, MemoryStoreError>)
        ensures
            r matches Ok(o) && opt_record_view(o) == (if self@.contains_key(key@) {
                Some(self@[key@])
            } else {
                None
            }),
    {
        match self.records.get(key) {
            Some(rec) => Ok(Some(rec.duplicate())),
            None => Ok(None),
        }
    }

    /// Remove an idempotency record.
    pub fn remove(&mut self, key: &str) -> (r: Result<(), MemoryStoreError>)
        ensures
            r is Ok,
            final(self)@ == old(self)@.remove(key@),
    {
        let ghost m = self@;
        let _ = self.records.remove(key);
        assert(self@ =~= m.remove(key@));
        Ok(())
    }
}

impl Default for InMemoryIdempotencyStore {
    fn default() -> (r: Self)
        ensures
            r@ == Map::<Seq<char>, RecordView>::empty(),
    {
        Self::new()
    }
}

/// A key acquired afresh is reported as existing, with its in-progress
/// record, by every later attempt made before it expires: a retried request
/// is recognised instead of being performed twice.
pub proof fn law_acquired_key_is_held_until_expiry(
    m: Map<Seq<char>, RecordView>,
    key: Seq<char>,
    ttl: u64,
    t1: int,
    ttl2: u64,
    t2: int,
)
    requires
        acquire(m, key, ttl, t1).1 is None,
        t2 <= t1 + ttl_seconds(ttl) * NANOS_PER_SEC,
    ensures
        acquire(acquire(m, key, ttl, t1).0, key, ttl2, t2) == (
            acquire(m, key, ttl, t1).0,
            Some(fresh_record(key, t1, ttl)),
        ),
{
}

/// Once a record has expired, the next attempt acquires the key afresh.
pub proof fn law_expired_key_is_reacquired(
    m: Map<Seq<char>, RecordView>,
    key: Seq<char>,
    ttl: u64,
    now: int,
)
    requires
        m.contains_key(key),
        m[key].expires_at < now,
    ensures
        acquire(m, key, ttl, now) == (m.insert(key, fresh_record(key, now, ttl)), None::<RecordView>),
{
}

/// Completing an acquired key records the response and the completed
/// status, and leaves its expiry as it was.
pub proof fn law_complete_records_response(
    m: Map<Seq<char>, RecordView>,
    key: Seq<char>,
    ttl: u64,
    now: int,
    response: Seq<char>,
)
    requires
        acquire(m, key, ttl, now).1 is None,
    ensures
        ({
            let done = mark(acquire(m, key, ttl, now).0, key, IdempotencyStatus::Completed, Some(response));
            &&& done.contains_key(key)
            &&& done[key].status == IdempotencyStatus::Completed
            &&& done[key].response == Some(response)
            &&& done[key].expires_at == fresh_record(key, now, ttl).expires_at
        }),
{
}

/// Acquiring one key leaves every other key's record untouched.
pub proof fn law_acquire_touches_only_its_key(
    m: Map<Seq<char>, RecordView>,
    key: Seq<char>,
    other: Seq<char>,
    ttl: u64,
    now: int,
)
    requires
        key != other,
    ensures
        acquire(m, key, ttl, now).0.contains_key(other) == m.contains_key(other),
        m.contains_key(other) ==> acquire(m, key, ttl, now).0[other] == m[other],
{
}

/// After a record is removed, the key is free: the next attempt acquires it.
pub proof fn law_removed_key_is_free(
    m: Map<Seq<char>, RecordView>,
    key: Seq<char>,
    ttl: u64,
    now: int,
)
    ensures
        acquire(m.remove(key), key, ttl, now).1 is None,
{
}

/// A key whose record is still live is answered with that record, for any
/// ttl, and the store is left as it was: a retried acquisition neither
/// refreshes nor extends the record, and never fails on its ttl.
pub proof fn law_live_record_is_returned_for_any_ttl(
    m: Map<Seq<char>, RecordView>,
    key: Seq<char>,
    ttl: u64,
    now: int,
    after: Map<Seq<char>, RecordView>,
    r: Result<Option<IdempotencyRecord>, MemoryStoreError>,
)
    requires
        live_at(m, key, now),
        acquire_checked(m, key, ttl, now, after, r),
    ensures
        r matches Ok(Some(rec)) && rec@ == m[key],
        after == m,
{
}

/// A `complete` or `fail` call on the store, as it bears on the records.
pub enum MarkCall {
    Complete(Seq<char>, Seq<char>),
    Fail(Seq<char>),
}

/// The records after a sequence of `complete` and `fail` calls, in order.
pub open spec fn apply_marks(m: Map<Seq<char>, RecordView>, calls: Seq<MarkCall>) -> Map<
    Seq<char>,
    RecordView,
>
    decreases calls.len(),
{
    if calls.len() == 0 {
        m
    } else {
        let before = apply_marks(m, calls.drop_last());
        match calls.last() {
            MarkCall::Complete(k, response) => mark(
                before,
                k,
                IdempotencyStatus::Completed,
                Some(response),
            ),
            MarkCall::Fail(k) => mark(before, k, IdempotencyStatus::Failed, None),
        }
    }
}

proof fn lemma_marks_keep_record(m: Map<Seq<char>, RecordView>, calls: Seq<MarkCall>, key: Seq<char>)
    requires
        m.contains_key(key),
    ensures
        apply_marks(m, calls).contains_key(key),
        apply_marks(m, calls)[key].key == m[key].key,
        apply_marks(m, calls)[key].created_at == m[key].created_at,
        apply_marks(m, calls)[key].expires_at == m[key].expires_at,
    decreases calls.len(),
{
    if calls.len() > 0 {
        lemma_marks_keep_record(m, calls.drop_last(), key);
    }
}

/// Once a key is acquired at `t1` for `ttl` seconds, any sequence of
/// `complete` and `fail` calls (with no removal) leaves its record live up
/// to its expiry: acquiring the key again at any `t2` up to then, with any
/// ttl, returns the stored record as it stands (status and response as
/// last set), and leaves the store unchanged, neither refreshing nor
/// extending the expiry.
pub proof fn law_acquired_key_answers_until_expiry(
    m: Map<Seq<char>, RecordView>,
    key: Seq<char>,
    ttl: u64,
    t1: int,
    calls: Seq<MarkCall>,
    ttl2: u64,
    t2: int,
    after: Map<Seq<char>, RecordView>,
    r: Result<Option<IdempotencyRecord>, MemoryStoreError>,
)
    requires
        acquire(m, key, ttl, t1).1 is None,
        t2 <= t1 + ttl_seconds(ttl) * NANOS_PER_SEC,
        acquire_checked(apply_marks(acquire(m, key, ttl, t1).0, calls), key, ttl2, t2, after, r),
    ensures
        r matches Ok(Some(rec)) && rec@ == apply_marks(acquire(m, key, ttl, t1).0, calls)[key],
        after == apply_marks(acquire(m, key, ttl, t1).0, calls),
        after[key].key == key,
        after[key].created_at == t1,
        after[key].expires_at == t1 + ttl_seconds(ttl) * NANOS_PER_SEC,
{
    let taken = acquire(m, key, ttl, t1).0;
    assert(taken.contains_key(key));
    lemma_marks_keep_record(taken, calls, key);
    assert(live_at(apply_marks(taken, calls), key, t2));
}

} // verus!
