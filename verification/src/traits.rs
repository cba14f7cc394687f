//! The capability contract a value's type must satisfy to be cached.

use vstd::bytes::lemma_auto_spec_u32_to_from_le_bytes;
use vstd::bytes::lemma_auto_spec_u64_to_from_le_bytes;
use vstd::bytes::spec_u32_from_le_bytes;
use vstd::bytes::spec_u32_to_le_bytes;
use vstd::bytes::spec_u64_from_le_bytes;
use vstd::bytes::spec_u64_to_le_bytes;
use vstd::bytes::u32_from_le_bytes;
use vstd::bytes::u32_to_le_bytes;
use vstd::bytes::u64_from_le_bytes;
use vstd::bytes::u64_to_le_bytes;
use vstd::prelude::*;

verus! {

/// An auxiliary trait for cachable items.
///
/// A cachable type turns its values into payload bytes and back, and
/// declares a schema version.  If the layout of the cachable object
/// changes, the version needs to be bumped: records written under any
/// other version are then treated as absent on read, which invalidates
/// them without scanning the store.
pub trait Cachable: Sized {
    /// The schema version the type declares.
    spec fn spec_version() -> u32;

    /// The payload bytes a value serializes to.
    spec fn spec_encoded(&self) -> Seq<u8>;

    /// The value, if any, that payload bytes deserialize to.
    spec fn spec_decoded(b: Seq<u8>) -> Option<Self>;

    /// Serialization round-trips: a value always deserializes from its
    /// own payload bytes.
    proof fn lemma_round_trip(v: Self)
        ensures
            Self::spec_decoded(v.spec_encoded()) == Some(v),
    ;

    /// Returns the cache version.
    fn cache_version() -> (r: u32)
        ensures
            r == Self::spec_version(),
    ;

    /// Serializes the value into payload bytes.
    fn to_cache_bytes(&self) -> (r: Vec<u8>)
        ensures
            r@ == self.spec_encoded(),
    ;

    /// Deserializes a value from payload bytes; `None` when the bytes do
    /// not hold one.
    fn from_cache_bytes(b: &[u8]) -> (r: Option<Self>)
        ensures
            r == Self::spec_decoded(b@),
    ;
}

/// `u64` payloads: eight little-endian bytes, schema version 1.
impl Cachable for u64 {
    open spec fn spec_version() -> u32 {
        1
    }

    open spec fn spec_encoded(&self) -> Seq<u8> {
        spec_u64_to_le_bytes(*self)
    }

    open spec fn spec_decoded(b: Seq<u8>) -> Option<u64> {
        if b.len() == 8 {
            Some(spec_u64_from_le_bytes(b))
        } else {
            None
        }
    }

    proof fn lemma_round_trip(v: u64) {
        lemma_auto_spec_u64_to_from_le_bytes();
    }

    fn cache_version() -> u32 {
        1
    }

    fn to_cache_bytes(&self) -> Vec<u8> {
        proof {
            lemma_auto_spec_u64_to_from_le_bytes();
        }
        u64_to_le_bytes(*self)
    }

    fn from_cache_bytes(b: &[u8]) -> Option<u64> {
        if b.len() == 8 {
            Some(u64_from_le_bytes(b))
        } else {
            None
        }
    }
}

/// `u32` payloads: four little-endian bytes, schema version 2.
impl Cachable for u32 {
    open spec fn spec_version() -> u32 {
        2
    }

    open spec fn spec_encoded(&self) -> Seq<u8> {
        spec_u32_to_le_bytes(*self)
    }

    open spec fn spec_decoded(b: Seq<u8>) -> Option<u32> {
        if b.len() == 4 {
            Some(spec_u32_from_le_bytes(b))
        } else {
            None
        }
    }

    proof fn lemma_round_trip(v: u32) {
        lemma_auto_spec_u32_to_from_le_bytes();
    }

    fn cache_version() -> u32 {
        2
    }

    fn to_cache_bytes(&self) -> Vec<u8> {
        proof {
            lemma_auto_spec_u32_to_from_le_bytes();
        }
        u32_to_le_bytes(*self)
    }

    fn from_cache_bytes(b: &[u8]) -> Option<u32> {
        if b.len() == 4 {
            Some(u32_from_le_bytes(b))
        } else {
            None
        }
    }
}

} // verus!
