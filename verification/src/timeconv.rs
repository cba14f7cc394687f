//! Arithmetic behind the best-effort conversions between monotonic
//! instants and wall-clock datetimes.
//!
//! The conversions anchor on a process-wide reference pair of one
//! instant and the datetime read at the same moment.  The instants
//! themselves are opaque to this layer and live with the application;
//! here is the exact arithmetic on their millisecond timelines.

use vstd::prelude::*;

verus! {

/// The signed distance from the reference datetime `ref_ms` to the
/// datetime `dt_ms`, as a direction (`true` means the datetime lies at
/// or after the reference) and a magnitude in milliseconds.
pub fn offset_from_reference(dt_ms: i64, ref_ms: i64) -> (r: (bool, u64))
    ensures
        r.0 ==> dt_ms == ref_ms + r.1,
        !r.0 ==> ref_ms == dt_ms + r.1,
{
    if dt_ms >= ref_ms {
        let diff: i128 = dt_ms as i128 - ref_ms as i128;
        (true, diff as u64)
    } else {
        let diff: i128 = ref_ms as i128 - dt_ms as i128;
        (false, diff as u64)
    }
}

/// The reference datetime `ref_ms` advanced by `delta_ms` milliseconds,
/// or `None` when the sum leaves the representable timeline: the
/// checked step of turning an instant into a datetime.
pub fn reference_plus(ref_ms: i64, delta_ms: u64) -> (r: Option<i64>)
    ensures
        r matches Some(ts) ==> ts == ref_ms + delta_ms,
        r is None <==> ref_ms + delta_ms > i64::MAX,
{
    let sum: i128 = ref_ms as i128 + delta_ms as i128;
    if sum > i64::MAX as i128 {
        None
    } else {
        Some(sum as i64)
    }
}

} // verus!
