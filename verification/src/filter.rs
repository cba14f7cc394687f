//! The expiry filter the storage engine invokes during background
//! compaction.
//!
//! It inspects only the framing header of a stored record and tells the
//! engine whether the record may be reclaimed.  It never destroys data
//! it cannot confidently classify as expired: bytes that do not decode,
//! and records with no expiry, are kept.

use crate::codec;
use vstd::prelude::*;

verus! {

/// What the expiry filter tells the engine to do with a record.
#[derive(Debug, Clone, Copy, PartialEq, Eq, Structural)]
pub enum Decision {
    /// Leave the record in place.
    Keep,
    /// Reclaim the record.
    Remove,
}

/// The filter's decision on stored bytes `b` at time `now`: drop the
/// record exactly when its framing header decodes and carries an expiry
/// in the past.
pub open spec fn filter_decision(b: Seq<u8>, now: int) -> Decision {
    match codec::spec_decode_header(b) {
        Err(_) => Decision::Keep,
        Ok((expires_at, _version)) => match expires_at {
            None => Decision::Keep,
            Some(ts) => if ts < now {
                Decision::Remove
            } else {
                Decision::Keep
            },
        },
    }
}

/// Decides on one record from its bytes and the given time.  A pure,
/// referentially transparent function of its arguments, so the engine
/// may invoke it repeatedly, concurrently and in any order.
pub fn filter_at(value: &[u8], now_ms: i64) -> (d: Decision)
    ensures
        d == filter_decision(value@, now_ms as int),
{
    match codec::decode_header(value) {
        Err(_) => Decision::Keep,
        Ok((expires_at, _version)) => match expires_at {
            None => Decision::Keep,
            Some(ts) => {
                if ts < now_ms {
                    Decision::Remove
                } else {
                    Decision::Keep
                }
            },
        },
    }
}

/// The compaction callback: decides from the record's bytes and the
/// clock.  The compaction level and the key take no part in the
/// decision.
pub fn ttl_compaction_filter(_level: u32, _key: &[u8], value: &[u8]) -> (d: Decision)
    ensures
        exists|now_ms: i64| d == filter_decision(value@, now_ms as int),
{
    let now_ms = crate::clock::now_millis();
    filter_at(value, now_ms)
}

} // verus!
