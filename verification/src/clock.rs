//! Trusted access to the wall clock.

use vstd::prelude::*;

verus! {

/// Relies on chrono's `Local::now` and `DateTime::timestamp_millis`: the
/// current local wall-clock time as milliseconds since the Unix epoch.
/// The value depends on the clock, so nothing is promised of it.
#[verifier::external_body]
pub(crate) fn now_millis() -> i64 {
    chrono::Local::now().timestamp_millis()
}

/// Relies on chrono's `Local::now` and the `Display` rendering of
/// `DateTime`: the current local time as human-readable text. The value
/// depends on the clock, so nothing is promised of it.
#[verifier::external_body]
pub(crate) fn now_text() -> String {
    chrono::Local::now().to_string()
}

} // verus!
