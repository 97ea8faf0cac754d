//! Points in time, as the identity store records them.

use vstd::prelude::*;

verus! {

/// A UTC instant: whole seconds since the Unix epoch and the nanoseconds
/// that follow them.
#[derive(Clone, Copy, Debug, PartialEq, Eq, Structural)]
pub struct Timestamp {
    pub secs: i64,
    pub nanos: u32,
}

impl Timestamp {
    /// The instant `secs` seconds and `nanos` nanoseconds after the epoch.
    pub fn new(secs: i64, nanos: u32) -> (t: Timestamp)
        ensures
            t.secs == secs,
            t.nanos == nanos,
    {
        Timestamp { secs, nanos }
    }
}

/// Reads the system clock through `chrono::Utc::now`, drops the time zone
/// with `naive_utc` and takes the value apart with `timestamp` and
/// `timestamp_subsec_nanos`.
///
/// Trusted: chrono builds the value from the time elapsed since the Unix
/// epoch, so the seconds are not negative and the nanoseconds stay below one
/// second. Which instant comes back depends on the machine's clock, and
/// nothing more is claimed.
#[verifier::external_body]
pub(crate) fn now() -> (t: Timestamp)
    ensures
        t.secs >= 0,
        t.nanos < 1_000_000_000,
{
    let at = chrono::Utc::now().naive_utc();
    Timestamp { secs: at.and_utc().timestamp(), nanos: at.and_utc().timestamp_subsec_nanos() }
}

} // verus!
