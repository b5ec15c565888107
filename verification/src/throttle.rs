//! Minimum spacing between outbound requests.
//!
//! The throttle holds two numbers: when the latest outbound request went out
//! (milliseconds since the epoch) and the configured minimum interval. One
//! acquisition attempt compares a clock reading against the stored instant
//! and either lets the request proceed, asks the caller to wait out the
//! remainder of the interval, or reports a clock anomaly (a stored instant
//! that lies in the future), answered with a short fixed backoff. The throttle itself
//! never sleeps; waiting is the surrounding program's job, which then hands
//! in a fresh clock reading.

use vstd::prelude::*;

verus! {

/// Fixed backoff, in milliseconds, after the stored timestamp is found to
/// lie in the future relative to the current clock reading.
pub const CLOCK_ANOMALY_BACKOFF_MS: u64 = 1000;

/// What one acquisition attempt asks of the caller.
#[derive(Clone, Copy, PartialEq, Eq, Structural, Debug)]
pub enum ThrottleStep {
    /// The minimum spacing has elapsed: the request may go out now.
    Proceed,
    /// Too soon: wait this many milliseconds, then attempt again.
    Wait(u64),
    /// The stored timestamp lies in the future: wait
    /// `CLOCK_ANOMALY_BACKOFF_MS`, then attempt again.
    Anomaly,
}

/// The request-spacing gate: last outbound request instant plus the
/// configured minimum interval, both in milliseconds.
pub struct ThrottleGate {
    /// Instant of the last outbound request, in milliseconds since the epoch.
    pub last_request_ms: u64,
    /// Minimum enforced spacing between requests, in milliseconds.
    pub min_interval_ms: u64,
}

/// The decision one acquisition attempt makes from the stored instant, the
/// configured interval and a clock reading.
pub open spec fn throttle_decision(last_ms: u64, min_interval_ms: u64, now_ms: u64) -> ThrottleStep {
    if now_ms < last_ms {
        ThrottleStep::Anomaly
    } else if now_ms - last_ms >= min_interval_ms {
        ThrottleStep::Proceed
    } else {
        ThrottleStep::Wait((min_interval_ms - (now_ms - last_ms)) as u64)
    }
}

impl ThrottleGate {
    /// A gate that last let a request out at `last_request_ms` and enforces
    /// a spacing of `min_interval_ms`.
    pub fn new(last_request_ms: u64, min_interval_ms: u64) -> (r: ThrottleGate)
        ensures
            r.last_request_ms == last_request_ms,
            r.min_interval_ms == min_interval_ms,
    {
        ThrottleGate { last_request_ms, min_interval_ms }
    }

    /// One acquisition attempt at clock reading `now_ms`. On `Proceed` the
    /// reading becomes the stored instant; on `Wait` and `Anomaly` nothing
    /// changes and the caller waits the returned duration (or the
    /// fixed backoff) before attempting again.
    pub fn acquire_step(&mut self, now_ms: u64) -> (r: ThrottleStep)
        ensures
            r == throttle_decision(old(self).last_request_ms, old(self).min_interval_ms, now_ms),
            final(self).min_interval_ms == old(self).min_interval_ms,
            final(self).last_request_ms == if r is Proceed {
                now_ms
            } else {
                old(self).last_request_ms
            },
    {
        if now_ms < self.last_request_ms {
            ThrottleStep::Anomaly
        } else if now_ms - self.last_request_ms >= self.min_interval_ms {
            self.last_request_ms = now_ms;
            ThrottleStep::Proceed
        } else {
            ThrottleStep::Wait(self.min_interval_ms - (now_ms - self.last_request_ms))
        }
    }
}

/// Law: two acquisitions in immediate succession. After a first acquisition
/// proceeds at instant `now1` (so `now1` is the stored instant), a second
/// attempt at any instant `now2` before the interval has elapsed is told to
/// wait exactly the remainder `min_interval_ms - (now2 - now1)`; waiting it
/// out lands the retry exactly at `now1 + min_interval_ms`, so the second
/// request is delayed by no less and no more than the interval demands.
pub proof fn lemma_second_acquire_waits(min_interval_ms: u64, now1: u64, now2: u64)
    requires
        now1 <= now2,
        now2 - now1 < min_interval_ms,
    ensures
        throttle_decision(now1, min_interval_ms, now2) == ThrottleStep::Wait(
            (min_interval_ms - (now2 - now1)) as u64,
        ),
        now2 + (min_interval_ms - (now2 - now1)) == now1 + min_interval_ms,
{
}

/// Law: a retry that has waited out the remainder of the interval proceeds.
/// Once the clock reaches `now1 + min_interval_ms`, the decision for a gate
/// whose stored instant is `now1` is `Proceed`.
pub proof fn lemma_acquire_after_wait_proceeds(min_interval_ms: u64, now1: u64, now2: u64)
    requires
        now1 + min_interval_ms <= now2,
    ensures
        throttle_decision(now1, min_interval_ms, now2) == ThrottleStep::Proceed,
{
}

} // verus!
