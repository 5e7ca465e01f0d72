use vstd::prelude::*;

verus! {

/// Relies on std::time::SystemTime::now and duration_since: the
/// machine clock as milliseconds since the Unix epoch. A reading
/// before the epoch reports as zero, and one too large for the result
/// type saturates, so the call never unwinds. The value depends on
/// the wall clock, so nothing is promised of it; every caller must
/// hold for any reading.
#[verifier::external_body]
pub fn now_timestamp_millis() -> i64 {
    match std::time::SystemTime::now().duration_since(std::time::UNIX_EPOCH) {
        Ok(elapsed) => i64::try_from(elapsed.as_millis()).unwrap_or(i64::MAX),
        Err(_) => 0,
    }
}

} // verus!
