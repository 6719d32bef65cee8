//! Retry decisions.
//!
//! The backoff delay itself is computed in floating point by the retry
//! policy outside this library; what is decided here is whether to retry
//! at all and with which attempt number.

use vstd::prelude::*;
use crate::text::{decimal, push_decimal, push_str};

verus! {

/// Decision from a retry policy evaluation.
#[derive(Debug, Clone)]
pub enum RetryDecision {
    /// Retry the operation after the specified delay (in milliseconds).
    Retry { delay_ms: u64, attempt: u32 },
    /// Do not retry; all attempts exhausted or error is not retryable.
    GiveUp { attempts_made: u32, reason: String },
}

/// The reason given when the retries are used up.
pub open spec fn exhausted_reason(max_retries: u32) -> Seq<char> {
    "max retries ("@ + decimal(max_retries as nat) + ") exhausted"@
}

/// Whether to retry after `attempt` attempts when at most `max_retries`
/// are allowed: give up once the attempts reach the maximum, otherwise
/// retry after `delay_ms` as attempt number `attempt + 1`.
pub fn decide(max_retries: u32, attempt: u32, delay_ms: u64) -> (r: RetryDecision)
    ensures
        attempt >= max_retries ==> (r matches RetryDecision::GiveUp { attempts_made, reason }
            && attempts_made == attempt && reason@ == exhausted_reason(max_retries)),
        attempt < max_retries ==> (r matches RetryDecision::Retry { delay_ms: d, attempt: a }
            && d == delay_ms && a == attempt + 1),
{
    if attempt >= max_retries {
        let mut reason = String::from_str("max retries (");
        push_decimal(&mut reason, max_retries as u64);
        push_str(&mut reason, ") exhausted");
        return RetryDecision::GiveUp { attempts_made: attempt, reason };
    }
    RetryDecision::Retry { delay_ms, attempt: attempt + 1 }
}

} // verus!
