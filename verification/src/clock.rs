//! The wall clock, as the surrounding process provides it.

use vstd::prelude::*;

verus! {

/// Relies on chrono's `Utc::now`: the current wall-clock time as seconds
/// since the Unix epoch. The value depends on when the call runs, so
/// nothing is promised of it; callers state what holds whatever time
/// comes back.
#[verifier::external_body]
pub(crate) fn unix_now() -> i64 {
    chrono::Utc::now().timestamp()
}

} // verus!
