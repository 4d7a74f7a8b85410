//! Wall-clock access for the cache-busting timestamp embedded in each
//! request line. Nothing is promised of the values: the contracts of the
//! request builders hold for every timestamp.

use vstd::prelude::*;

verus! {

#[verifier::external_type_specification]
#[verifier::external_body]
pub struct ExSystemTime(std::time::SystemTime);

/// Relies on std::time::SystemTime::now: reads the wall clock. Nothing can
/// be promised of the value.
#[verifier::external_body]
pub(crate) fn system_now() -> std::time::SystemTime {
    std::time::SystemTime::now()
}

/// Relies on std::time::SystemTime::duration_since: the elapsed time from
/// the Unix epoch to `t`, here taken in whole milliseconds, or 0 for a
/// clock reading before the epoch. Nothing can be promised of the value.
#[verifier::external_body]
pub(crate) fn millis_since_epoch(t: &std::time::SystemTime) -> u128 {
    match t.duration_since(std::time::SystemTime::UNIX_EPOCH) {
        Ok(elapsed) => elapsed.as_millis(),
        Err(_) => 0,
    }
}

/// The current Unix time in whole milliseconds (0 if the wall clock reads
/// before the epoch), used only to make request queries distinct.
pub(crate) fn unix_millis() -> u128 {
    let t = system_now();
    millis_since_epoch(&t)
}

} // verus!
