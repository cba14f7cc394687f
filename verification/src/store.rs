//! The cache store semantics: how a write frames its value and how a
//! read applies version and expiry policy.
//!
//! The storage engine itself is an outside collaborator that hands raw
//! bytes back and forth; everything it stores for this layer goes
//! through `build_entry`, and everything it returns goes through
//! `read_entry`.  The whole-store model (`set_model`, `get_model`)
//! states what the operations mean over the engine's cache partition,
//! seen as a map from keys to raw bytes.

use crate::codec;
use crate::codec::DecodeError;
use crate::traits::Cachable;
use vstd::prelude::*;

verus! {

/// The engine's cache partition, modelled as the raw bytes it stores
/// under each key.
pub type CacheContents = Map<Seq<char>, Seq<u8>>;

/// Whether a record whose framing carries `expires_at` is still live at
/// time `now` (milliseconds since the UTC epoch).  A record with no
/// expiry is always live; one with an expiry is live strictly before it.
pub open spec fn frame_live(expires_at: Option<i64>, now: int) -> bool {
    match expires_at {
        None => true,
        Some(ts) => ts > now,
    }
}

/// The absolute expiry of a record written at `now_ms` with the given
/// TTL: their sum, clamped at the largest representable timestamp.
pub open spec fn spec_expiry(now_ms: i64, ttl_ms: Option<u64>) -> Option<i64> {
    match ttl_ms {
        None => None,
        Some(d) => Some(
            if now_ms + d > i64::MAX {
                i64::MAX
            } else {
                (now_ms + d) as i64
            },
        ),
    }
}

/// Computes the absolute expiry timestamp for a write: now plus the
/// TTL, saturating instead of overflowing.
pub fn expiry_for(now_ms: i64, ttl_ms: Option<u64>) -> (r: Option<i64>)
    ensures
        r == spec_expiry(now_ms, ttl_ms),
{
    match ttl_ms {
        None => None,
        Some(d) => {
            let sum: i128 = now_ms as i128 + d as i128;
            if sum > i64::MAX as i128 {
                Some(i64::MAX)
            } else {
                Some(sum as i64)
            }
        },
    }
}

/// The bytes a `set` of value `v` with `ttl_ms` writes at time `now_ms`.
pub open spec fn build_model<C: Cachable>(v: C, ttl_ms: Option<u64>, now_ms: i64) -> Seq<u8> {
    codec::spec_encode(spec_expiry(now_ms, ttl_ms), C::spec_version(), v.spec_encoded())
}

/// Frames a value for writing: computes the expiry from the TTL, takes
/// the type's schema version and serialized payload, and encodes them.
/// The compute part of `set`; the engine write follows it.
pub fn build_entry<C: Cachable>(value: &C, ttl_ms: Option<u64>, now_ms: i64) -> (r: Vec<u8>)
    ensures
        r@ == build_model::<C>(*value, ttl_ms, now_ms),
{
    let expires_at = expiry_for(now_ms, ttl_ms);
    let payload = value.to_cache_bytes();
    codec::encode(expires_at, C::cache_version(), payload.as_slice())
}

/// The raw engine result as a byte sequence.
pub open spec fn raw_bytes(raw: Option<&[u8]>) -> Option<Seq<u8>> {
    match raw {
        None => None,
        Some(b) => Some(b@),
    }
}

/// What a read of raw engine bytes yields at time `now` for type `C`:
/// a miss when the key is absent, written under another schema version
/// or expired; the value when live; an error when the bytes decode as
/// no record of `C`.
pub open spec fn read_model<C: Cachable>(raw: Option<Seq<u8>>, now: int) -> Result<
    Option<C>,
    DecodeError,
> {
    match raw {
        None => Ok(None),
        Some(b) => match codec::spec_decode(b) {
            Err(e) => Err(e),
            Ok((expires_at, version, payload)) => {
                if version != C::spec_version() {
                    Ok(None)
                } else if !frame_live(expires_at, now) {
                    Ok(None)
                } else {
                    match C::spec_decoded(payload) {
                        Some(v) => Ok(Some(v)),
                        None => Err(DecodeError::BadPayload),
                    }
                }
            },
        },
    }
}

/// Applies the read policy to the raw bytes the engine returned for a
/// key.  The compute part of `get`: version mismatch and expiry are
/// silent misses, left in place for compaction or a later overwrite to
/// reclaim; undecodable bytes are an error.
pub fn read_entry<C: Cachable>(raw: Option<&[u8]>, now_ms: i64) -> (r: Result<
    Option<C>,
    DecodeError,
>)
    ensures
        r == read_model::<C>(raw_bytes(raw), now_ms as int),
{
    let b = match raw {
        None => {
            return Ok(None);
        },
        Some(b) => b,
    };
    let frame = match codec::decode(b) {
        Err(e) => {
            return Err(e);
        },
        Ok(f) => f,
    };
    if frame.version != C::cache_version() {
        return Ok(None);
    }
    match frame.expires_at {
        Some(ts) => {
            if ts <= now_ms {
                return Ok(None);
            }
        },
        None => {},
    }
    match C::from_cache_bytes(frame.payload.as_slice()) {
        Some(v) => Ok(Some(v)),
        None => Err(DecodeError::BadPayload),
    }
}

/// What the self-healing read makes of a strict read result: a decode
/// failure is downgraded to a miss, and the second component tells the
/// caller to prune the offending key; everything else passes through
/// untouched.
pub fn resolve_safe<C: Cachable>(r: Result<Option<C>, DecodeError>) -> (out: (Option<C>, bool))
    ensures
        out.1 == (r is Err),
        r matches Ok(v) ==> out.0 == v,
        r is Err ==> out.0 is None,
{
    match r {
        Ok(v) => (v, false),
        Err(_) => (None, true),
    }
}

/// The cache partition after `set(key, v, ttl_ms)` at time `now_ms`: a
/// blind last-write-wins overwrite of whatever the key held.
pub open spec fn set_model<C: Cachable>(
    m: CacheContents,
    key: Seq<char>,
    v: C,
    ttl_ms: Option<u64>,
    now_ms: i64,
) -> CacheContents {
    m.insert(key, build_model::<C>(v, ttl_ms, now_ms))
}

/// What `get(key)` returns at time `now` from cache contents `m`.
pub open spec fn get_model<C: Cachable>(m: CacheContents, key: Seq<char>, now: int) -> Result<
    Option<C>,
    DecodeError,
> {
    read_model::<C>(
        if m.dom().contains(key) {
            Some(m[key])
        } else {
            None
        },
        now,
    )
}

} // verus!
