//! The system clock.

use vstd::prelude::*;

verus! {

/// Reads the system clock with `SystemTime::elapsed` on the UNIX epoch and
/// hands back the time since the epoch in nanoseconds, or 0 where the clock
/// stands before the epoch. Two readings may differ in any way, so nothing
/// is promised of the result.
#[verifier::external_body]
pub(crate) fn unix_nanos() -> (nanos: u128) {
    std::time::UNIX_EPOCH.elapsed().unwrap_or_default().as_nanos()
}

} // verus!
