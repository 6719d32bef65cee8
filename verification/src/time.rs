//! Points in UTC time and spans between them, held as plain integers, with
//! the current time and RFC 3339 rendering taken from `chrono`.

use vstd::prelude::*;

verus! {

/// Earliest second that `chrono` can represent (start of year -262143).
pub const MIN_UNIX_SECS: i64 = -8334601228800;

/// Latest second that `chrono` can represent (end of year 262142).
pub const MAX_UNIX_SECS: i64 = 8210266876799;

pub const NANOS_PER_SEC: i128 = 1_000_000_000;

/// A point in UTC time: whole seconds since the Unix epoch and the
/// nanoseconds past that second, within the range that `chrono` represents.
#[derive(Debug, Clone, Copy, PartialEq, Eq, Hash)]
pub struct UtcTime {
    secs: i64,
    nanos: u32,
}

/// A signed span of time, in nanoseconds.
#[derive(Debug, Clone, Copy, PartialEq, Eq, Hash)]
pub struct TimeDelta {
    nanos: i128,
}

/// Whole seconds inside the representable range.
pub open spec fn secs_in_range(secs: int) -> bool {
    MIN_UNIX_SECS <= secs <= MAX_UNIX_SECS
}

/// Nanoseconds since the epoch that fall inside the representable range.
pub open spec fn nanos_in_range(n: int) -> bool {
    MIN_UNIX_SECS * NANOS_PER_SEC <= n < (MAX_UNIX_SECS + 1) * NANOS_PER_SEC
}

/// The RFC 3339 text that `chrono` writes for the instant `secs`.`nanos`.
pub uninterp spec fn rfc3339_text(secs: i64, nanos: u32) -> Seq<char>;

impl UtcTime {
    #[verifier::type_invariant]
    pub closed spec fn wf(self) -> bool {
        &&& secs_in_range(self.secs as int)
        &&& self.nanos < NANOS_PER_SEC
    }

    /// Seconds since the Unix epoch (floored).
    pub closed spec fn spec_secs(self) -> i64 {
        self.secs
    }

    /// Nanoseconds past the whole second.
    pub closed spec fn spec_nanos(self) -> u32 {
        self.nanos
    }

    /// The instant as nanoseconds since the Unix epoch.
    pub open spec fn total_nanos(self) -> int {
        self.spec_secs() * NANOS_PER_SEC + self.spec_nanos()
    }

    /// What every time value satisfies.
    pub proof fn lemma_wf(self)
        requires
            self.wf(),
        ensures
            secs_in_range(self.spec_secs() as int),
            self.spec_nanos() < NANOS_PER_SEC,
            nanos_in_range(self.total_nanos()),
    {
    }

    /// Builds the instant `secs`.`nanos`, or `None` when it lies outside the
    /// representable range or `nanos` is not below one second.
    pub fn from_unix(secs: i64, nanos: u32) -> (r: Option<Self>)
        ensures
            r is Some <==> (secs_in_range(secs as int) && nanos < NANOS_PER_SEC),
            r matches Some(t) ==> t.spec_secs() == secs && t.spec_nanos() == nanos,
    {
        if MIN_UNIX_SECS <= secs && secs <= MAX_UNIX_SECS && (nanos as i128) < NANOS_PER_SEC {
            Some(UtcTime { secs, nanos })
        } else {
            None
        }
    }

    /// Builds the instant from nanoseconds since the epoch.
    pub fn from_total_nanos(n: i128) -> (r: Option<Self>)
        ensures
            r is Some <==> nanos_in_range(n as int),
            r matches Some(t) ==> t.total_nanos() == n,
    {
        if n < (MIN_UNIX_SECS as i128) * NANOS_PER_SEC || n >= (MAX_UNIX_SECS as i128 + 1)
            * NANOS_PER_SEC {
            return None;
        }
        let (secs, nanos) = if n >= 0 {
            ((n / NANOS_PER_SEC) as i64, (n % NANOS_PER_SEC) as u32)
        } else {
            let m: i128 = 0 - n;
            let q: i128 = m / NANOS_PER_SEC;
            let rem: i128 = m % NANOS_PER_SEC;
            if rem == 0 {
                ((0 - q) as i64, 0u32)
            } else {
                ((0 - q - 1) as i64, (NANOS_PER_SEC - rem) as u32)
            }
        };
        let t = UtcTime { secs, nanos };
        Some(t)
    }

    /// Seconds since the Unix epoch.
    pub fn timestamp(&self) -> (r: i64)
        ensures
            r == self.spec_secs(),
    {
        self.secs
    }

    /// Nanoseconds past the whole second.
    pub fn timestamp_subsec_nanos(&self) -> (r: u32)
        ensures
            r == self.spec_nanos(),
    {
        self.nanos
    }

    /// Nanoseconds since the epoch.
    pub fn as_total_nanos(&self) -> (r: i128)
        ensures
            r == self.total_nanos(),
    {
        proof {
            use_type_invariant(self);
        }
        (self.secs as i128) * NANOS_PER_SEC + (self.nanos as i128)
    }

    /// The span from `earlier` to `self` (positive when `self` is later).
    pub fn signed_duration_since(&self, earlier: &UtcTime) -> (r: TimeDelta)
        ensures
            r.spec_nanos() == self.total_nanos() - earlier.total_nanos(),
    {
        proof {
            use_type_invariant(self);
            use_type_invariant(earlier);
        }
        TimeDelta { nanos: self.as_total_nanos() - earlier.as_total_nanos() }
    }

    /// The instant `delta` later, or `None` when that leaves the
    /// representable range.
    pub fn checked_add(&self, delta: TimeDelta) -> (r: Option<UtcTime>)
        ensures
            r is Some <==> nanos_in_range(self.total_nanos() + delta.spec_nanos()),
            r matches Some(t) ==> t.total_nanos() == self.total_nanos() + delta.spec_nanos(),
    {
        proof {
            use_type_invariant(self);
            use_type_invariant(&delta);
        }
        let total = self.as_total_nanos();
        UtcTime::from_total_nanos(total + delta.nanos)
    }

    /// Whether `self` is strictly earlier than `other`.
    pub fn is_before(&self, other: &UtcTime) -> (r: bool)
        ensures
            r == (self.total_nanos() < other.total_nanos()),
    {
        self.as_total_nanos() < other.as_total_nanos()
    }

    /// The RFC 3339 text of the instant, as `chrono` writes it.
    pub fn to_rfc3339(&self) -> (r: String)
        ensures
            r@ == rfc3339_text(self.spec_secs(), self.spec_nanos()),
    {
        proof {
            use_type_invariant(self);
        }
        chrono_rfc3339(self.secs, self.nanos)
    }
}

/// Largest span in either direction: the distance between the ends of the
/// representable range.
pub open spec fn delta_in_range(n: int) -> bool {
    -(MAX_UNIX_SECS - MIN_UNIX_SECS + 1) * NANOS_PER_SEC <= n <= (MAX_UNIX_SECS - MIN_UNIX_SECS
        + 1) * NANOS_PER_SEC
}

/// Whole seconds in a span of `n` nanoseconds, rounded toward zero.
pub open spec fn trunc_seconds(n: int) -> int {
    if n >= 0 {
        n / (NANOS_PER_SEC as int)
    } else {
        -((-n) / (NANOS_PER_SEC as int))
    }
}

impl TimeDelta {
    #[verifier::type_invariant]
    pub closed spec fn wf(self) -> bool {
        delta_in_range(self.nanos as int)
    }

    /// The span in nanoseconds.
    pub closed spec fn spec_nanos(self) -> i128 {
        self.nanos
    }

    /// A span of whole seconds, or `None` when it exceeds the distance
    /// between the ends of the representable range.
    pub fn seconds(secs: i64) -> (r: Option<TimeDelta>)
        ensures
            r is Some <==> delta_in_range(secs * NANOS_PER_SEC),
            r matches Some(d) ==> d.spec_nanos() == secs * NANOS_PER_SEC,
    {
        let n: i128 = (secs as i128) * NANOS_PER_SEC;
        let bound: i128 = ((MAX_UNIX_SECS - MIN_UNIX_SECS) as i128 + 1) * NANOS_PER_SEC;
        if n < 0 - bound || n > bound {
            None
        } else {
            Some(TimeDelta { nanos: n })
        }
    }

    /// Whole seconds of the span, rounded toward zero.
    pub fn num_seconds(&self) -> (r: i64)
        ensures
            r == trunc_seconds(self.spec_nanos() as int),
    {
        proof {
            use_type_invariant(self);
        }
        if self.nanos >= 0 {
            (self.nanos / NANOS_PER_SEC) as i64
        } else {
            (0 - ((0 - self.nanos) / NANOS_PER_SEC)) as i64
        }
    }
}

/// Calls `chrono::Utc::now`, which reads the system clock. It panics for a
/// clock set before the Unix epoch and otherwise gives a second count from
/// `SystemTime` with sub-second nanoseconds below one second; nothing is
/// stated of which instant it is.
#[verifier::external_body]
pub fn now() -> (r: UtcTime)
    ensures
        r.spec_secs() >= 0,
{
    let t = chrono::Utc::now();
    UtcTime { secs: t.timestamp(), nanos: t.timestamp_subsec_nanos() }
}

/// Calls `chrono::DateTime::from_timestamp(secs, 0)`, which gives `Some`
/// exactly for the seconds between the start of year -262143 and the end of
/// year 262142.
#[verifier::external_body]
pub(crate) fn chrono_accepts_unix_seconds(secs: i64) -> (r: bool)
    ensures
        r == secs_in_range(secs as int),
{
    chrono::DateTime::from_timestamp(secs, 0).is_some()
}

/// Calls `chrono::DateTime::to_rfc3339` on the instant `secs`.`nanos`; the
/// text is named by `rfc3339_text`.
#[verifier::external_body]
fn chrono_rfc3339(secs: i64, nanos: u32) -> (r: String)
    requires
        secs_in_range(secs as int),
        nanos < NANOS_PER_SEC,
    ensures
        r@ == rfc3339_text(secs, nanos),
{
    chrono::DateTime::from_timestamp(secs, nanos).unwrap().to_rfc3339()
}

} // verus!
