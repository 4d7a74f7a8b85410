//! Latency probe: converts the outcome of a single timed connection attempt
//! into a latency figure in microseconds, masking failure as a fixed
//! worst-case sentinel so that aggregation over many probes needs no
//! special-casing.

use vstd::prelude::*;

verus! {

/// Latency reported for a probe whose connection attempt failed (one full
/// probe timeout, in microseconds).
pub const PING_SENTINEL_MICROS: u128 = 1_000_000;

/// What the latency probe reports for a given measurement outcome:
/// the measured elapsed time on success, the sentinel on failure.
pub open spec fn spec_ping_latency(measured: Option<u128>) -> u128 {
    match measured {
        Some(elapsed) => elapsed,
        None => PING_SENTINEL_MICROS,
    }
}

/// Turn the outcome of one timed connection attempt into the reported
/// latency in microseconds. `measured` is `Some(elapsed)` if the attempt
/// succeeded after `elapsed` microseconds, `None` if it failed (refused or
/// timed out). Failure is reported as the sentinel, never as an error.
pub fn ping_latency_micros(measured: Option<u128>) -> (latency: u128)
    ensures
        latency == spec_ping_latency(measured),
{
    match measured {
        Some(elapsed) => elapsed,
        None => PING_SENTINEL_MICROS,
    }
}

/// Failure masking: a probe that completes within the probe timeout reports
/// strictly less than the sentinel, and a failed probe reports exactly the
/// sentinel, so the sentinel is unambiguous among in-budget measurements.
pub proof fn lemma_ping_sentinel(elapsed: u128)
    requires
        elapsed < PING_SENTINEL_MICROS,
    ensures
        spec_ping_latency(Some(elapsed)) < PING_SENTINEL_MICROS,
        spec_ping_latency(None) == PING_SENTINEL_MICROS,
{
}

} // verus!
