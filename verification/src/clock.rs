//! The wall clock.

use vstd::prelude::*;

verus! {

/// The current time in whole seconds since the Unix epoch.
///
/// Calls `chrono::Utc::now()` and `DateTime::timestamp` on what it returns.
/// Nothing is claimed of the number: it depends on the machine's clock, and two
/// calls may differ. `Utc::now` panics where that clock stands before the
/// epoch.
#[verifier::external_body]
pub(crate) fn current_timestamp() -> (now: i64) {
    chrono::Utc::now().timestamp()
}

} // verus!
