//! The wall clock.

use vstd::prelude::*;

verus! {

/// `chrono::Utc::now().timestamp()`: the current time in whole seconds since
/// the Unix epoch.
///
/// Nothing is claimed of the value: two calls may differ, and the clock may
/// go backwards. `chrono` panics where the system clock stands before the
/// Unix epoch or beyond the dates that it can represent.
#[verifier::external_body]
pub(crate) fn current_timestamp() -> i64 {
    chrono::Utc::now().timestamp()
}

} // verus!
