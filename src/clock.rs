//! The wall clock, for time stamps shown to collaborators.

use vstd::prelude::*;

verus! {

/// Relies on chrono's `From<SystemTime> for DateTime<Utc>` and
/// `DateTime::timestamp_millis`: the current wall-clock time in milliseconds
/// since the Unix epoch, negative for a clock set before 1970. Nothing is
/// promised of the value.
#[verifier::external_body]
pub(crate) fn wall_clock_ms() -> (t: i64) {
    chrono::DateTime::<chrono::Utc>::from(std::time::SystemTime::now()).timestamp_millis()
}

} // verus!
