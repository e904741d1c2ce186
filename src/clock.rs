//! The wall clock by which records are stamped.

use vstd::prelude::*;

verus! {

/// Relies on chrono's `Utc::now` and `DateTime::timestamp_millis`: the current
/// UTC time, in milliseconds since the Unix epoch. Nothing is promised of the
/// value, which depends on the moment of the call.
#[verifier::external_body]
pub(crate) fn now_millis() -> (r: i64) {
    chrono::Utc::now().timestamp_millis()
}

} // verus!
