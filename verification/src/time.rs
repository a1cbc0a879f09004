//! The wall clock, read through the chrono crate.

use vstd::prelude::*;

verus! {

/// Relies on chrono::Utc::now: nanoseconds since the Unix epoch; nothing is
/// promised of the value, which depends on the clock.
#[verifier::external_body]
pub(crate) fn now_nanos() -> i64 {
    chrono::Utc::now().timestamp_nanos_opt().unwrap_or(0)
}

} // verus!
