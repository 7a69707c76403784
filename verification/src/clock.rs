//! The wall clock, read once for each block that is built.

use chrono::Utc;
use vstd::prelude::*;

verus! {

/// Calls `chrono::Utc::now` and `DateTime::timestamp`: the current time in
/// whole seconds since the Unix epoch.
///
/// Trusted, with nothing claimed of the value: it depends on the machine's
/// clock, and two calls may differ. `Utc::now` panics where that clock
/// stands before the epoch.
#[verifier::external_body]
pub(crate) fn unix_time_now() -> i64 {
    Utc::now().timestamp()
}

} // verus!
