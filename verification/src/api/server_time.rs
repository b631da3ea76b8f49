//! The server-time endpoint's payload.

use vstd::prelude::*;
use crate::util::current_time_micros;

verus! {

/// The clock reading handed back to the client.
pub struct TimeResponse {
    pub timestamp: i64,
}

/// Reads the clock for the server-time endpoint; microseconds since the
/// epoch, never negative.
pub fn get() -> (r: TimeResponse)
    ensures
        r.timestamp >= 0,
{
    TimeResponse { timestamp: current_time_micros() }
}

} // verus!
