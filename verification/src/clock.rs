//! The wall clock, read through `chrono`.

use crate::token::LATEST_INSTANT;
use vstd::prelude::*;

verus! {

/// `chrono::Utc::now` and `DateTime::timestamp`: the seconds since the Unix
/// epoch at the moment of the call. Two calls may differ. Every instant
/// that comes back lies from the epoch to the last second that `chrono`
/// holds: `chrono` gives up where the system clock stands outside of that.
#[verifier::external_body]
pub(crate) fn unix_now() -> (now: i64)
    ensures
        0 <= now <= LATEST_INSTANT,
{
    chrono::Utc::now().timestamp()
}

} // verus!
