//! The wall clock.

use vstd::prelude::*;

verus! {

/// `chrono::Utc::now().timestamp()`: the seconds since the Unix epoch, read
/// from the system clock. Two calls may differ. `chrono` does not hand out a
/// time before the epoch: it panics on a clock that is set to one.
#[verifier::external_body]
pub(crate) fn unix_now() -> (seconds: i64)
    ensures
        0 <= seconds,
{
    chrono::Utc::now().timestamp()
}

} // verus!
