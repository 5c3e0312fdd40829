//! Wall-clock reads, and the policy that forces a reading into the
//! encodable range. Reading the clock is the one effect the generator
//! needs; everything downstream of the read is verified for every value
//! the clock may report.

use vstd::prelude::*;
use crate::codec::CUSTOM_EPOCH;
use crate::codec::MAX_REL_TIMESTAMP;

verus! {

/// Relies on std::time::SystemTime::now: the wall clock at the moment of
/// the call, reduced to whole milliseconds since the Unix epoch. When the
/// clock reports a moment before the Unix epoch, the width of that error
/// interval stands in for the reading, so the call still returns. Nothing
/// is promised of the result: callers are verified for every value.
#[verifier::external_body]
pub(crate) fn wall_clock_millis() -> u64 {
    match std::time::SystemTime::now().duration_since(std::time::UNIX_EPOCH) {
        Ok(d) => d.as_millis() as u64,
        Err(e) => e.duration().as_millis() as u64,
    }
}

/// Relies on std::time::SystemTime::now: the sub-second jitter of the wall
/// clock, used as best-effort entropy where no host identity signal is
/// available. When the clock reports a moment before the Unix epoch, the
/// jitter of that error interval stands in for it. Nothing is promised of
/// the result: callers are verified for every value.
#[verifier::external_body]
pub fn get_fallback_random() -> u32 {
    match std::time::SystemTime::now().duration_since(std::time::UNIX_EPOCH) {
        Ok(d) => d.subsec_nanos(),
        Err(e) => e.duration().subsec_nanos(),
    }
}

/// A wall-clock reading forced into the range the timestamp field can
/// carry. A reading inside the range passes through unchanged. A reading
/// before the custom epoch (a failing or badly regressed clock) falls back
/// to the epoch plus clock jitter: generation degrades to ids that are not
/// time-ordered, but it never fails. A reading past the field's horizon
/// saturates at the horizon.
pub fn normalize_timestamp(raw: u64) -> (t: u64)
    ensures
        CUSTOM_EPOCH <= t,
        t - CUSTOM_EPOCH <= MAX_REL_TIMESTAMP,
        CUSTOM_EPOCH <= raw && raw - CUSTOM_EPOCH <= MAX_REL_TIMESTAMP ==> t == raw,
        CUSTOM_EPOCH <= raw && raw - CUSTOM_EPOCH > MAX_REL_TIMESTAMP ==> t == CUSTOM_EPOCH
            + MAX_REL_TIMESTAMP,
{
    if raw < CUSTOM_EPOCH {
        let jitter = get_fallback_random();
        CUSTOM_EPOCH + (jitter as u64)
    } else if raw - CUSTOM_EPOCH > MAX_REL_TIMESTAMP {
        CUSTOM_EPOCH + MAX_REL_TIMESTAMP
    } else {
        raw
    }
}

} // verus!
