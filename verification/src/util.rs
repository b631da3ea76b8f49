//! Clock access.

use vstd::prelude::*;

verus! {

/// Returns the current time in microseconds since the Unix epoch.
///
/// Relies on `std::time::SystemTime::now`; a clock reading before the
/// epoch is reported as `0` and one beyond `i64::MAX` microseconds is
/// clamped, so the result is never negative.
#[verifier::external_body]
pub fn current_time_micros() -> (r: i64)
    ensures
        r >= 0,
{
    match std::time::SystemTime::now().duration_since(std::time::UNIX_EPOCH) {
        Ok(d) => i64::try_from(d.as_micros()).unwrap_or(i64::MAX),
        Err(_) => 0,
    }
}

} // verus!
