//! The process clock, an outside collaborator.

use vstd::prelude::*;

verus! {

/// Relies on chrono's `Utc::now` for the current UTC time, in
/// milliseconds since the epoch.  Nothing is promised of the value: the
/// wall clock may move either way between two calls.
#[verifier::external_body]
pub(crate) fn now_millis() -> i64 {
    chrono::Utc::now().timestamp_millis()
}

} // verus!
