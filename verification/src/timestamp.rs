//! Timestamp tolerance checks for webhooks.

use vstd::prelude::*;
use crate::text::{push_signed_decimal, signed_decimal};
use crate::time::{chrono_accepts_unix_seconds, now, rfc3339_text, secs_in_range, trunc_seconds, UtcTime};
use crate::webhook::VerificationResult;

verus! {

/// Validates that webhook timestamps are within an acceptable window.
#[derive(Debug, Clone)]
pub struct TimestampValidator {
    /// Maximum age of a webhook in seconds.
    pub tolerance_secs: u64,
}

/// Whether `timestamp` lies too far from `now`: the whole seconds between
/// them, rounded toward zero and taken without sign, exceed the tolerance.
pub open spec fn outside_tolerance(timestamp: UtcTime, now: UtcTime, tolerance_secs: u64) -> bool {
    let age = trunc_seconds(now.total_nanos() - timestamp.total_nanos());
    (if age < 0 { -age } else { age }) > tolerance_secs
}

/// The result of validating `timestamp` at `now`: expired (with the
/// timestamp in RFC 3339 and the tolerance) when it lies outside the
/// tolerance, valid otherwise.
pub open spec fn timestamp_result(
    r: VerificationResult,
    timestamp: UtcTime,
    now: UtcTime,
    tolerance_secs: u64,
) -> bool {
    if outside_tolerance(timestamp, now, tolerance_secs) {
        r matches VerificationResult::TimestampExpired { received, tolerance_secs: t } && received@
            == rfc3339_text(timestamp.spec_secs(), timestamp.spec_nanos()) && t == tolerance_secs
    } else {
        r is Valid
    }
}

impl TimestampValidator {
    pub fn new(tolerance_secs: u64) -> (r: Self)
        ensures
            r.tolerance_secs == tolerance_secs,
    {
        Self { tolerance_secs }
    }

    /// Default tolerance of 5 minutes.
    pub fn default_tolerance() -> (r: Self)
        ensures
            r.tolerance_secs == 300,
    {
        Self::new(300)
    }

    /// Validate a timestamp against a given current time.
    pub fn validate_at(&self, timestamp: &UtcTime, now: &UtcTime) -> (r: VerificationResult)
        ensures
            timestamp_result(r, *timestamp, *now, self.tolerance_secs),
    {
        let age = now.signed_duration_since(timestamp);
        let secs = age.num_seconds();
        let magnitude: u64 = if secs < 0 {
            (0i128 - secs as i128) as u64
        } else {
            secs as u64
        };
        if magnitude > self.tolerance_secs {
            VerificationResult::TimestampExpired {
                received: timestamp.to_rfc3339(),
                tolerance_secs: self.tolerance_secs,
            }
        } else {
            VerificationResult::Valid
        }
    }

    /// Validate a timestamp against the current time read from the system
    /// clock.
    pub fn validate(&self, timestamp: &UtcTime) -> (r: VerificationResult)
        ensures
            exists|n: UtcTime| n.spec_secs() >= 0 && timestamp_result(r, *timestamp, n, self.tolerance_secs),
    {
        let n = now();
        self.validate_at(timestamp, &n)
    }

    /// Parse a unix timestamp and validate it at `now`.
    pub fn validate_unix_at(&self, unix_ts: i64, now: &UtcTime) -> (r: VerificationResult)
        ensures
            secs_in_range(unix_ts as int) ==> exists|t: UtcTime|
                t.spec_secs() == unix_ts && t.spec_nanos() == 0 && timestamp_result(
                    r,
                    t,
                    *now,
                    self.tolerance_secs,
                ),
            !secs_in_range(unix_ts as int) ==> (r matches VerificationResult::Invalid { reason }
                && reason@ == "invalid unix timestamp: "@ + signed_decimal(unix_ts as int)),
    {
        if chrono_accepts_unix_seconds(unix_ts) {
            let t = UtcTime::from_unix(unix_ts, 0).unwrap();
            self.validate_at(&t, now)
        } else {
            let mut reason = String::from_str("invalid unix timestamp: ");
            push_signed_decimal(&mut reason, unix_ts);
            VerificationResult::Invalid { reason }
        }
    }

    /// Parse a unix timestamp and validate it against the current time read
    /// from the system clock.
    pub fn validate_unix(&self, unix_ts: i64) -> (r: VerificationResult)
        ensures
            secs_in_range(unix_ts as int) ==> exists|t: UtcTime, n: UtcTime|
                t.spec_secs() == unix_ts && t.spec_nanos() == 0 && n.spec_secs() >= 0
                    && timestamp_result(r, t, n, self.tolerance_secs),
            !secs_in_range(unix_ts as int) ==> (r matches VerificationResult::Invalid { reason }
                && reason@ == "invalid unix timestamp: "@ + signed_decimal(unix_ts as int)),
    {
        let n = now();
        self.validate_unix_at(unix_ts, &n)
    }
}

/// A timestamp checked at the very instant it names is always valid.
pub proof fn law_timestamp_at_itself_is_valid(t: UtcTime, tolerance_secs: u64)
    ensures
        !outside_tolerance(t, t, tolerance_secs),
{
}

/// A wider tolerance accepts every timestamp that a narrower one accepts.
pub proof fn law_tolerance_is_monotone(t: UtcTime, n: UtcTime, narrow: u64, wide: u64)
    requires
        narrow <= wide,
        !outside_tolerance(t, n, narrow),
    ensures
        !outside_tolerance(t, n, wide),
{
}

/// A timestamp ahead of the current time is held to the same tolerance as
/// one behind it by the same span.
pub proof fn law_tolerance_is_symmetric(t: UtcTime, n: UtcTime, tolerance_secs: u64)
    ensures
        outside_tolerance(t, n, tolerance_secs) == outside_tolerance(n, t, tolerance_secs),
{
}

} // verus!
