//! Wall-clock access.  Time is read behind one trusted call; everything
//! that depends on a time value takes it as an argument and is verified
//! for every value.

use vstd::prelude::*;

verus! {

/// Relies on std::time::SystemTime::now and duration_since: milliseconds
/// since the Unix epoch, or 0 when the clock reads before the epoch.
/// Nothing is promised of the value: callers must hold for every reading.
#[verifier::external_body]
pub(crate) fn now_unix_millis() -> i64 {
    std::time::SystemTime::now()
        .duration_since(std::time::UNIX_EPOCH)
        .map(|d| d.as_millis() as i64)
        .unwrap_or(0)
}

} // verus!
