//! Laws of the cache semantics, stated over the store model and proved
//! from the codec, the trait contract and the read policy.

use crate::codec;
use crate::codec::DecodeError;
use crate::filter::filter_decision;
use crate::filter::Decision;
use crate::store::get_model;
use crate::store::set_model;
use crate::store::spec_expiry;
use crate::store::CacheContents;
use crate::traits::Cachable;
use vstd::prelude::*;

verus! {

/// A value cached with no TTL never expires: after `set(key, v, None)`
/// at any time, a read of the same type at any later (or earlier) time
/// returns `Some(v)`.
pub proof fn lemma_set_then_get_no_ttl<C: Cachable>(
    m: CacheContents,
    key: Seq<char>,
    v: C,
    now_ms: i64,
    read_now: int,
)
    ensures
        get_model::<C>(set_model::<C>(m, key, v, None, now_ms), key, read_now) == Ok::<
            Option<C>,
            DecodeError,
        >(Some(v)),
{
    C::lemma_round_trip(v);
    codec::lemma_codec_round_trip(None, C::spec_version(), v.spec_encoded());
}

/// A value cached with a TTL reads back in full strictly before its
/// absolute expiry, and is a silent miss from the expiry on.
pub proof fn lemma_set_then_get_with_ttl<C: Cachable>(
    m: CacheContents,
    key: Seq<char>,
    v: C,
    ttl_ms: u64,
    now_ms: i64,
    read_now: int,
)
    ensures
        spec_expiry(now_ms, Some(ttl_ms)) matches Some(expiry) ==> {
            let r = get_model::<C>(set_model::<C>(m, key, v, Some(ttl_ms), now_ms), key, read_now);
            &&& read_now < expiry ==> r == Ok::<Option<C>, DecodeError>(Some(v))
            &&& read_now >= expiry ==> r == Ok::<Option<C>, DecodeError>(None)
        },
{
    C::lemma_round_trip(v);
    codec::lemma_codec_round_trip(
        spec_expiry(now_ms, Some(ttl_ms)),
        C::spec_version(),
        v.spec_encoded(),
    );
}

/// A record stored under one schema version is a silent miss for a
/// reader declaring any other version, even though the record is still
/// physically present under the key.
pub proof fn lemma_version_mismatch<C: Cachable, D: Cachable>(
    m: CacheContents,
    key: Seq<char>,
    v: C,
    ttl_ms: Option<u64>,
    now_ms: i64,
    read_now: int,
)
    requires
        C::spec_version() != D::spec_version(),
    ensures
        get_model::<D>(set_model::<C>(m, key, v, ttl_ms, now_ms), key, read_now) == Ok::<
            Option<D>,
            DecodeError,
        >(None),
        set_model::<C>(m, key, v, ttl_ms, now_ms).dom().contains(key),
{
    codec::lemma_codec_round_trip(
        spec_expiry(now_ms, ttl_ms),
        C::spec_version(),
        v.spec_encoded(),
    );
}

/// Every `set` is a blind overwrite: after two writes to the same key,
/// readers observe only the later one, whatever the first wrote.
pub proof fn lemma_set_overwrites<C: Cachable, D: Cachable>(
    m: CacheContents,
    key: Seq<char>,
    v1: C,
    ttl1_ms: Option<u64>,
    now1_ms: i64,
    v2: D,
    ttl2_ms: Option<u64>,
    now2_ms: i64,
    read_now: int,
)
    ensures
        get_model::<D>(
            set_model::<D>(set_model::<C>(m, key, v1, ttl1_ms, now1_ms), key, v2, ttl2_ms, now2_ms),
            key,
            read_now,
        ) == get_model::<D>(set_model::<D>(m, key, v2, ttl2_ms, now2_ms), key, read_now),
{
}

/// After `remove(key)` a read of the key is a miss, whatever the key
/// held; removing an absent key changes nothing, so removal never
/// errors at this layer.
pub proof fn lemma_remove_then_get<C: Cachable>(m: CacheContents, key: Seq<char>, read_now: int)
    ensures
        get_model::<C>(m.remove(key), key, read_now) == Ok::<Option<C>, DecodeError>(None),
        !m.dom().contains(key) ==> m.remove(key) =~= m,
{
}

/// Stored bytes that decode as no record make the strict read an error,
/// never a silent miss: corruption is surfaced, not swallowed.
pub proof fn lemma_corrupt_is_error<C: Cachable>(m: CacheContents, key: Seq<char>, read_now: int)
    requires
        m.dom().contains(key),
        codec::spec_decode(m[key]) is Err,
    ensures
        get_model::<C>(m, key, read_now) is Err,
{
}

/// Compaction is invisible to readers: a record the filter would drop
/// at some time is one that every read at that time or later already
/// misses, so reclaiming it cannot change what `get` returns.
pub proof fn lemma_filter_drops_only_dead<C: Cachable>(
    m: CacheContents,
    key: Seq<char>,
    t_filter: int,
    t_read: int,
)
    requires
        m.dom().contains(key),
        filter_decision(m[key], t_filter) == Decision::Remove,
        t_filter <= t_read,
    ensures
        get_model::<C>(m, key, t_read) == Ok::<Option<C>, DecodeError>(None),
{
}

} // verus!
