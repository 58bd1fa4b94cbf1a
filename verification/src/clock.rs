//! The wall clock, as milliseconds since the Unix epoch.

use vstd::prelude::*;

verus! {

/// The current UTC time in milliseconds since the Unix epoch.
///
/// Calls `chrono::Utc::now()` and `timestamp_millis()`. The value depends on
/// the system clock, so the contract states nothing about it.
#[verifier::external_body]
pub(crate) fn now_millis() -> (r: i64) {
    chrono::Utc::now().timestamp_millis()
}

} // verus!
