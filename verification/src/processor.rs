//! The webhook processing pipeline: verify the signature, check the
//! timestamp, detect replays through idempotency keys, parse into a
//! canonical event, and record the event as the key's response.
//!
//! The pipeline alternates decisions with calls into a verifier, an
//! idempotency store and a parser; the decisions are the step functions
//! here, each taking what the previous call gave back, and `process_at`
//! runs them all against the in-memory store.

use vstd::prelude::*;
use crate::event::CanonicalEvent;
use crate::idempotency::{
    acquire, expiry_in_range, live_at, mark, IdempotencyRecord, IdempotencyStatus,
    InMemoryIdempotencyStore, RecordView,
};
use crate::time::{now, UtcTime, NANOS_PER_SEC};
use crate::hmac_verifier::hex_digit;
use crate::text::push_str;
use crate::timestamp::{outside_tolerance, timestamp_result, TimestampValidator};
use crate::webhook::{RawWebhook, VerificationResult};

verus! {

/// How long, in seconds, a webhook's delivery is remembered for replay
/// detection (24 hours).
pub const REPLAY_TTL_SECS: u64 = 86400;

/// Default timestamp tolerance of a processor, in seconds (5 minutes).
pub const DEFAULT_TOLERANCE_SECS: u64 = 300;

/// Errors from the webhook processor.
#[derive(Debug, Clone)]
pub enum ProcessorError {
    Verification(String),
    Idempotency(String),
    Parsing(String),
}

impl ProcessorError {
    /// The message that the error displays as.
    pub open spec fn message_text(&self) -> Seq<char> {
        match self {
            ProcessorError::Verification(m) => "verification failed: "@ + m@,
            ProcessorError::Idempotency(m) => "idempotency check failed: "@ + m@,
            ProcessorError::Parsing(m) => "event parsing failed: "@ + m@,
        }
    }

    /// The message that the error displays as.
    pub fn to_string(&self) -> (r: String)
        ensures
            r@ == self.message_text(),
    {
        let mut s = String::new();
        match self {
            ProcessorError::Verification(m) => {
                push_str(&mut s, "verification failed: ");
                push_str(&mut s, m.as_str());
            },
            ProcessorError::Idempotency(m) => {
                push_str(&mut s, "idempotency check failed: ");
                push_str(&mut s, m.as_str());
            },
            ProcessorError::Parsing(m) => {
                push_str(&mut s, "event parsing failed: ");
                push_str(&mut s, m.as_str());
            },
        }
        assert(s@ =~= self.message_text());
        s
    }
}

/// Result of processing a webhook.
#[derive(Debug)]
pub enum ProcessResult {
    /// New event processed successfully.
    Processed(CanonicalEvent),
    /// Duplicate webhook, already processed.
    Duplicate { original_id: String },
    /// Webhook rejected (invalid signature, expired, etc.).
    Rejected { result: VerificationResult },
}

/// What to do after the signature check.
#[derive(Debug)]
pub enum AfterVerification {
    /// Stop: the webhook is rejected with this verification result.
    Reject(VerificationResult),
    /// Go on: acquire this idempotency key to detect a replay.
    CheckReplay { key: String },
}

/// The idempotency key under which a webhook delivery is remembered.
pub open spec fn replay_key(id: Seq<char>) -> Seq<char> {
    "webhook:"@ + id
}

/// Orchestrates the webhook processing pipeline:
/// 1. Verify signature
/// 2. Check timestamp
/// 3. Check idempotency (replay detection)
/// 4. Parse into canonical event
pub struct WebhookProcessor<V, S> {
    verifier: V,
    store: S,
    timestamp_tolerance_secs: u64,
}

impl<V, S> WebhookProcessor<V, S> {
    pub closed spec fn spec_verifier(&self) -> V {
        self.verifier
    }

    pub closed spec fn spec_store(&self) -> S {
        self.store
    }

    pub closed spec fn spec_tolerance(&self) -> u64 {
        self.timestamp_tolerance_secs
    }

    /// A processor with the default timestamp tolerance of 5 minutes.
    pub fn new(verifier: V, store: S) -> (r: Self)
        ensures
            r.spec_verifier() == verifier,
            r.spec_store() == store,
            r.spec_tolerance() == DEFAULT_TOLERANCE_SECS,
    {
        Self { verifier, store, timestamp_tolerance_secs: DEFAULT_TOLERANCE_SECS }
    }

    pub fn with_timestamp_tolerance(self, secs: u64) -> (r: Self)
        ensures
            r.spec_verifier() == self.spec_verifier(),
            r.spec_store() == self.spec_store(),
            r.spec_tolerance() == secs,
    {
        let mut s = self;
        s.timestamp_tolerance_secs = secs;
        s
    }

    /// The signature verifier.
    pub fn signature_verifier(&self) -> (r: &V)
        ensures
            *r == self.spec_verifier(),
    {
        &self.verifier
    }

    /// The idempotency store.
    pub fn store(&self) -> (r: &S)
        ensures
            *r == self.spec_store(),
    {
        &self.store
    }

    /// The timestamp tolerance in seconds.
    pub fn timestamp_tolerance_secs(&self) -> (r: u64)
        ensures
            r == self.spec_tolerance(),
    {
        self.timestamp_tolerance_secs
    }

    /// Steps 1 and 2 at time `now`: given what the verifier returned (its
    /// error already rendered as text), fail with a verification error,
    /// reject a webhook whose signature was refused, reject one received
    /// further from `now` than the tolerance, or go on to replay detection
    /// under the key `webhook:<id>`.
    pub fn after_verification(
        &self,
        webhook: &RawWebhook,
        now: &UtcTime,
        verification: Result<VerificationResult, String>,
    ) -> (r: Result<AfterVerification, ProcessorError>)
        ensures
            verification_step(
                verification,
                webhook.id@,
                webhook.received_at,
                *now,
                self.spec_tolerance(),
                r,
            ),
    {
        match verification {
            Err(e) => Err(ProcessorError::Verification(e)),
            Ok(v) => {
                if v.is_rejected() {
                    return Ok(AfterVerification::Reject(v));
                }
                let validator = TimestampValidator::new(self.timestamp_tolerance_secs);
                let checked = validator.validate_at(&webhook.received_at, now);
                if checked.is_rejected() {
                    return Ok(AfterVerification::Reject(checked));
                }
                let mut key = String::from_str("webhook:");
                push_str(&mut key, webhook.id.0.as_str());
                Ok(AfterVerification::CheckReplay { key })
            },
        }
    }

    /// Steps 1 and 2 with the current time read from the system clock.
    pub fn after_verification_now(
        &self,
        webhook: &RawWebhook,
        verification: Result<VerificationResult, String>,
    ) -> (r: Result<AfterVerification, ProcessorError>)
        ensures
            exists|n: UtcTime|
                n.spec_secs() >= 0 && #[trigger] verification_step(
                    verification,
                    webhook.id@,
                    webhook.received_at,
                    n,
                    self.spec_tolerance(),
                    r,
                ),
    {
        let n = now();
        self.after_verification(webhook, &n, verification)
    }
}

impl<V> WebhookProcessor<V, InMemoryIdempotencyStore> {
    /// Process a webhook at time `now` against the in-memory store, given
    /// what the verifier returned for it: steps 1 and 2 decide whether it
    /// goes on; its key `webhook:<id>` is acquired for 24 hours, a live
    /// record making it a duplicate; `parse_fn` is called only when the
    /// lock was taken; a parsed event is recorded as the key's response and
    /// returned.
    pub fn process_at<F>(
        &mut self,
        webhook: &RawWebhook,
        now: &UtcTime,
        verification: Result<VerificationResult, String>,
        parse_fn: F,
    ) -> (r: Result<ProcessResult, ProcessorError>) where
        F: FnOnce(&RawWebhook) -> Result<CanonicalEvent, String>,

        requires
            call_requires(parse_fn, (webhook,)),
        ensures
            final(self).spec_verifier() == old(self).spec_verifier(),
            final(self).spec_tolerance() == old(self).spec_tolerance(),
            process_outcome(
                old(self).spec_store()@,
                final(self).spec_store()@,
                webhook,
                *now,
                verification,
                old(self).spec_tolerance(),
                r,
            ),
            passes_verification(verification, webhook.received_at, *now, old(self).spec_tolerance())
                && !live_at(old(self).spec_store()@, replay_key(webhook.id@), now.total_nanos())
                && expiry_in_range(now.total_nanos(), REPLAY_TTL_SECS) ==> match r {
                Ok(ProcessResult::Processed(event)) => call_ensures(
                    parse_fn,
                    (webhook,),
                    Ok::<CanonicalEvent, String>(event),
                ),
                Err(ProcessorError::Parsing(e)) => call_ensures(
                    parse_fn,
                    (webhook,),
                    Err::<CanonicalEvent, String>(e),
                ),
                _ => false,
            },
    {
        let key = match self.after_verification(webhook, now, verification) {
            Err(e) => return Err(e),
            Ok(AfterVerification::Reject(result)) => return Ok(rejected(result)),
            Ok(AfterVerification::CheckReplay { key }) => key,
        };
        let acquired = match self.store.try_acquire_checked_at(key.as_str(), REPLAY_TTL_SECS, now) {
            Ok(o) => Ok(o),
            Err(e) => Err(e.0),
        };
        match after_replay_check(acquired) {
            Err(e) => return Err(e),
            Ok(Some(duplicate)) => return Ok(duplicate),
            Ok(None) => {},
        }
        match parse_fn(webhook) {
            Err(e) => Err(ProcessorError::Parsing(e)),
            Ok(event) => {
                let response = completion_response(&event);
                let _ = self.store.complete(key.as_str(), response);
                Ok(ProcessResult::Processed(event))
            },
        }
    }
}

/// What processing a webhook does to the store (`m` before, `after`
/// after) and returns, the parser's own result aside: a webhook that does
/// not pass verification is answered as step 1 decides; one whose key has
/// a live record is a duplicate naming that record's key; one whose new
/// record would expire outside the representable range is an idempotency
/// error; in those cases the store is unchanged. Otherwise the lock is
/// taken, and a parsed event is returned with the key marked completed and
/// its response recorded, while a parser error leaves the lock in progress.
pub open spec fn process_outcome(
    m: Map<Seq<char>, RecordView>,
    after: Map<Seq<char>, RecordView>,
    webhook: &RawWebhook,
    now: UtcTime,
    verification: Result<VerificationResult, String>,
    tolerance_secs: u64,
    r: Result<ProcessResult, ProcessorError>,
) -> bool {
    let key = replay_key(webhook.id@);
    let t = now.total_nanos();
    if !passes_verification(verification, webhook.received_at, now, tolerance_secs) {
        &&& after == m
        &&& match verification {
            Err(e) => r matches Err(ProcessorError::Verification(msg)) && msg@ == e@,
            Ok(v) => if v.spec_is_rejected() {
                r matches Ok(ProcessResult::Rejected { result }) && result == v
            } else {
                r matches Ok(ProcessResult::Rejected { result }) && timestamp_result(
                    result,
                    webhook.received_at,
                    now,
                    tolerance_secs,
                )
            },
        }
    } else if live_at(m, key, t) {
        &&& after == m
        &&& r matches Ok(ProcessResult::Duplicate { original_id }) && original_id@ == m[key].key
    } else if !expiry_in_range(t, REPLAY_TTL_SECS) {
        &&& after == m
        &&& r matches Err(ProcessorError::Idempotency(msg)) && msg@ == "expiry time out of range"@
    } else {
        let taken = acquire(m, key, REPLAY_TTL_SECS, t).0;
        match r {
            Ok(ProcessResult::Processed(event)) => after == mark(
                taken,
                key,
                IdempotencyStatus::Completed,
                Some(completion_text(event.event_id@)),
            ),
            Err(ProcessorError::Parsing(_)) => after == taken,
            _ => false,
        }
    }
}

/// Whether a webhook that the verifier judged `verification` goes on to
/// replay detection: the verifier did not fail or reject it, and it was
/// received within the tolerance of `now`.
pub open spec fn passes_verification(
    verification: Result<VerificationResult, String>,
    received_at: UtcTime,
    now: UtcTime,
    tolerance_secs: u64,
) -> bool {
    verification matches Ok(v) && !v.spec_is_rejected() && !outside_tolerance(
        received_at,
        now,
        tolerance_secs,
    )
}

/// The decision of steps 1 and 2: a verifier error becomes a verification
/// error; a rejected signature is the rejection; a timestamp outside the
/// tolerance is rejected as expired (with the timestamp and the
/// tolerance); otherwise the key `webhook:<id>` is checked for replay.
pub open spec fn verification_step(
    verification: Result<VerificationResult, String>,
    id: Seq<char>,
    received_at: UtcTime,
    now: UtcTime,
    tolerance_secs: u64,
    r: Result<AfterVerification, ProcessorError>,
) -> bool {
    match verification {
        Err(e) => r matches Err(ProcessorError::Verification(m)) && m@ == e@,
        Ok(v) => if v.spec_is_rejected() {
            r matches Ok(AfterVerification::Reject(w)) && w == v
        } else if outside_tolerance(received_at, now, tolerance_secs) {
            r matches Ok(AfterVerification::Reject(w)) && timestamp_result(
                w,
                received_at,
                now,
                tolerance_secs,
            )
        } else {
            r matches Ok(AfterVerification::CheckReplay { key }) && key@ == replay_key(id)
        },
    }
}

/// The result of a rejection.
pub fn rejected(result: VerificationResult) -> (r: ProcessResult)
    ensures
        r == (ProcessResult::Rejected { result }),
{
    ProcessResult::Rejected { result }
}

/// Step 2: given what acquiring the key returned (its error rendered as
/// text), fail with an idempotency error, stop with a duplicate when a
/// record already existed (naming that record's key), or go on (`None`).
pub fn after_replay_check(acquired: Result<Option<IdempotencyRecord>, String>) -> (r: Result<
    Option<ProcessResult>,
    ProcessorError,
>)
    ensures
        match acquired {
            Err(e) => r matches Err(ProcessorError::Idempotency(m)) && m@ == e@,
            Ok(None) => r matches Ok(None),
            Ok(Some(existing)) => r matches Ok(Some(ProcessResult::Duplicate { original_id }))
                && original_id@ == existing.key@,
        },
{
    match acquired {
        Err(e) => Err(ProcessorError::Idempotency(e)),
        Ok(None) => Ok(None),
        Ok(Some(existing)) => Ok(Some(ProcessResult::Duplicate { original_id: existing.key })),
    }
}

/// Step 3: given what the parser returned, fail with a parsing error or
/// finish with the processed event (whose id is then recorded as the
/// key's response).
pub fn after_parse(parsed: Result<CanonicalEvent, String>) -> (r: Result<ProcessResult, ProcessorError>)
    ensures
        match parsed {
            Err(e) => r matches Err(ProcessorError::Parsing(m)) && m@ == e@,
            Ok(event) => r == Ok::<ProcessResult, ProcessorError>(ProcessResult::Processed(event)),
        },
{
    match parsed {
        Err(e) => Err(ProcessorError::Parsing(e)),
        Ok(event) => Ok(ProcessResult::Processed(event)),
    }
}

/// How `serde_json` writes one character inside a JSON string: quote and
/// backslash are escaped with a backslash, the control characters below
/// space by their short escape where JSON has one and as `\u00XX` (lower
/// case hexadecimal) otherwise; every other character stands as it is.
pub open spec fn json_escaped_char(c: char) -> Seq<char> {
    let n = c as int;
    if c == '"' {
        seq!['\\', '"']
    } else if c == '\\' {
        seq!['\\', '\\']
    } else if n == 8 {
        seq!['\\', 'b']
    } else if n == 9 {
        seq!['\\', 't']
    } else if n == 10 {
        seq!['\\', 'n']
    } else if n == 12 {
        seq!['\\', 'f']
    } else if n == 13 {
        seq!['\\', 'r']
    } else if n < 32 {
        seq!['\\', 'u', '0', '0', hex_digit(n / 16), hex_digit(n % 16)]
    } else {
        seq![c]
    }
}

/// The JSON string literal of `s`: its characters escaped, in quotes.
pub open spec fn json_string_text(s: Seq<char>) -> Seq<char> {
    seq!['"'] + s.map_values(|c: char| json_escaped_char(c)).flatten() + seq!['"']
}

/// Calls `serde_json::to_string` on a string slice, which writes it as a
/// JSON string literal (serialising a `str` does not fail).
#[verifier::external_body]
fn json_string(s: &str) -> (r: String)
    ensures
        r@ == json_string_text(s@),
{
    match serde_json::to_string(s) {
        Ok(t) => t,
        Err(_) => String::new(),
    }
}

/// The response recorded under a webhook's key once its event is
/// processed: the JSON object `{"event_id":<id>}`.
pub open spec fn completion_text(event_id: Seq<char>) -> Seq<char> {
    "{\"event_id\":"@ + json_string_text(event_id) + "}"@
}

/// Step 4: the response to record for a processed event, as JSON text.
pub fn completion_response(event: &CanonicalEvent) -> (r: String)
    ensures
        r@ == completion_text(event.event_id@),
{
    let mut s = String::from_str("{\"event_id\":");
    let quoted = json_string(event.event_id.as_str());
    push_str(&mut s, quoted.as_str());
    push_str(&mut s, "}");
    s
}

/// The record-level reading of step 2: whether a store answer stops the
/// pipeline as a duplicate.
pub open spec fn is_replay(acquired: Option<RecordView>) -> bool {
    acquired is Some
}

/// A webhook delivered again within 24 hours of being accepted is a
/// replay: acquiring its key in the store finds the first delivery's record.
pub proof fn law_redelivered_webhook_is_duplicate(
    m: Map<Seq<char>, RecordView>,
    id: Seq<char>,
    t1: int,
    t2: int,
)
    requires
        acquire(m, replay_key(id), REPLAY_TTL_SECS, t1).1 is None,
        t2 <= t1 + REPLAY_TTL_SECS * NANOS_PER_SEC,
    ensures
        is_replay(acquire(acquire(m, replay_key(id), REPLAY_TTL_SECS, t1).0, replay_key(id), REPLAY_TTL_SECS, t2).1),
        acquire(acquire(m, replay_key(id), REPLAY_TTL_SECS, t1).0, replay_key(id), REPLAY_TTL_SECS, t2).1.unwrap().key
            == replay_key(id),
{
}

/// Distinct deliveries have distinct idempotency keys, so one delivery is
/// never mistaken for a replay of another.
pub proof fn law_replay_keys_are_distinct(a: Seq<char>, b: Seq<char>)
    requires
        a != b,
    ensures
        replay_key(a) != replay_key(b),
{
    reveal_strlit("webhook:");
    if replay_key(a) == replay_key(b) {
        assert(replay_key(a).subrange(8, replay_key(a).len() as int) =~= a);
        assert(replay_key(b).subrange(8, replay_key(b).len() as int) =~= b);
    }
}

/// One webhook delivery is processed at most once: once processing it
/// took its key and reached the parser (whether the parser succeeded or
/// failed), processing the same delivery again, up to 24 hours later and
/// with a verification that passes, is answered as a duplicate naming
/// `webhook:<id>`, leaves the store as it was, and never reaches the
/// parser.
pub proof fn law_delivery_processed_at_most_once(
    m0: Map<Seq<char>, RecordView>,
    m1: Map<Seq<char>, RecordView>,
    m2: Map<Seq<char>, RecordView>,
    webhook: &RawWebhook,
    now1: UtcTime,
    now2: UtcTime,
    v1: Result<VerificationResult, String>,
    v2: Result<VerificationResult, String>,
    tolerance_secs: u64,
    r1: Result<ProcessResult, ProcessorError>,
    r2: Result<ProcessResult, ProcessorError>,
)
    requires
        process_outcome(m0, m1, webhook, now1, v1, tolerance_secs, r1),
        r1 matches Ok(ProcessResult::Processed(_)) || r1 matches Err(ProcessorError::Parsing(_)),
        now2.total_nanos() <= now1.total_nanos() + REPLAY_TTL_SECS * NANOS_PER_SEC,
        passes_verification(v2, webhook.received_at, now2, tolerance_secs),
        process_outcome(m1, m2, webhook, now2, v2, tolerance_secs, r2),
    ensures
        r2 matches Ok(ProcessResult::Duplicate { original_id }) && original_id@ == replay_key(
            webhook.id@,
        ),
        m2 == m1,
{
    let key = replay_key(webhook.id@);
    assert(m1.contains_key(key) && m1[key].key == key);
    assert(live_at(m1, key, now2.total_nanos()));
}

/// A processed webhook's key is left completed, with the event's id
/// recorded as its response.
pub proof fn law_processed_webhook_is_completed(
    m0: Map<Seq<char>, RecordView>,
    m1: Map<Seq<char>, RecordView>,
    webhook: &RawWebhook,
    now: UtcTime,
    v: Result<VerificationResult, String>,
    tolerance_secs: u64,
    r: Result<ProcessResult, ProcessorError>,
    event: CanonicalEvent,
)
    requires
        process_outcome(m0, m1, webhook, now, v, tolerance_secs, r),
        r == Ok::<ProcessResult, ProcessorError>(ProcessResult::Processed(event)),
    ensures
        m1.contains_key(replay_key(webhook.id@)),
        m1[replay_key(webhook.id@)].status == IdempotencyStatus::Completed,
        m1[replay_key(webhook.id@)].response == Some(completion_text(event.event_id@)),
        m1[replay_key(webhook.id@)].created_at == now.total_nanos(),
        m1[replay_key(webhook.id@)].expires_at == now.total_nanos() + REPLAY_TTL_SECS * NANOS_PER_SEC,
{
}

} // verus!
