//! The entry codec: the on-disk framing for a cached value.
//!
//! Every stored record is the byte string
//! `tag (1 byte) | expiry (8 bytes, only when tag says so) | version (4
//! bytes) | payload (the rest)`.  Integers are little-endian; the expiry
//! is a millisecond UTC timestamp stored through its `u64` bit pattern.
//! The framing header never depends on the payload, so the expiry filter
//! can classify a record without parsing the payload.

use vstd::bytes::lemma_auto_spec_u32_to_from_le_bytes;
use vstd::bytes::lemma_auto_spec_u64_to_from_le_bytes;
use vstd::bytes::spec_u32_from_le_bytes;
use vstd::bytes::spec_u32_to_le_bytes;
use vstd::bytes::spec_u64_from_le_bytes;
use vstd::bytes::spec_u64_to_le_bytes;
use vstd::bytes::u32_from_le_bytes;
use vstd::bytes::u32_to_le_bytes;
use vstd::bytes::u64_from_le_bytes;
use vstd::bytes::u64_to_le_bytes;
use vstd::prelude::*;
use vstd::slice::slice_index_get;
use vstd::slice::slice_subrange;
use vstd::slice::slice_to_vec;

verus! {

/// Leading tag of a record that never expires.
pub const TAG_NO_EXPIRY: u8 = 0;

/// Leading tag of a record that carries an expiry timestamp.
pub const TAG_EXPIRY: u8 = 1;

/// Why a stored byte string is not a well-formed cache record.
#[derive(Debug, Clone, Copy, PartialEq, Eq, Structural)]
pub enum DecodeError {
    /// The bytes end before the framing header is complete.
    Truncated,
    /// The leading expiry tag byte is not a known tag.
    BadTag,
    /// The framing is intact but the payload does not decode as the
    /// requested type.
    BadPayload,
}

/// A decoded record: optional absolute expiry (milliseconds since the
/// UTC epoch), schema version, and the opaque payload bytes.
pub struct Frame {
    pub expires_at: Option<i64>,
    pub version: u32,
    pub payload: Vec<u8>,
}

/// The bytes that frame a value of schema version `version` expiring at
/// `expires_at` around the payload `payload`.
pub open spec fn spec_encode(expires_at: Option<i64>, version: u32, payload: Seq<u8>) -> Seq<u8> {
    match expires_at {
        None => seq![TAG_NO_EXPIRY] + spec_u32_to_le_bytes(version) + payload,
        Some(ts) => seq![TAG_EXPIRY] + spec_u64_to_le_bytes(ts as u64) + spec_u32_to_le_bytes(
            version,
        ) + payload,
    }
}

/// The framing header (expiry, version) of a stored byte string, or why
/// it has none.  Reads only the header bytes, never the payload.
pub open spec fn spec_decode_header(b: Seq<u8>) -> Result<(Option<i64>, u32), DecodeError> {
    if b.len() < 1 {
        Err(DecodeError::Truncated)
    } else if b[0] == TAG_NO_EXPIRY {
        if b.len() < 5 {
            Err(DecodeError::Truncated)
        } else {
            Ok((None, spec_u32_from_le_bytes(b.subrange(1, 5))))
        }
    } else if b[0] == TAG_EXPIRY {
        if b.len() < 13 {
            Err(DecodeError::Truncated)
        } else {
            Ok(
                (
                    Some(spec_u64_from_le_bytes(b.subrange(1, 9)) as i64),
                    spec_u32_from_le_bytes(b.subrange(9, 13)),
                ),
            )
        }
    } else {
        Err(DecodeError::BadTag)
    }
}

/// Where the payload begins in a byte string whose header decodes.
pub open spec fn spec_payload_start(b: Seq<u8>) -> int {
    if b[0] == TAG_NO_EXPIRY {
        5
    } else {
        13
    }
}

/// The whole record: header fields plus the payload suffix.
pub open spec fn spec_decode(b: Seq<u8>) -> Result<(Option<i64>, u32, Seq<u8>), DecodeError> {
    match spec_decode_header(b) {
        Err(e) => Err(e),
        Ok((expires_at, version)) => Ok((expires_at, version, b.skip(spec_payload_start(b)))),
    }
}

/// Frames a payload with its expiry and schema version.
pub fn encode(expires_at: Option<i64>, version: u32, payload: &[u8]) -> (r: Vec<u8>)
    ensures
        r@ == spec_encode(expires_at, version, payload@),
{
    let mut out: Vec<u8> = Vec::new();
    match expires_at {
        None => {
            out.push(TAG_NO_EXPIRY);
        },
        Some(ts) => {
            out.push(TAG_EXPIRY);
            let mut ts_bytes = u64_to_le_bytes(ts as u64);
            out.append(&mut ts_bytes);
        },
    }
    let mut ver_bytes = u32_to_le_bytes(version);
    out.append(&mut ver_bytes);
    out.extend_from_slice(payload);
    proof {
        assert(out@ =~= spec_encode(expires_at, version, payload@));
    }
    out
}

/// Decodes a whole record, copying out its payload.
pub fn decode(b: &[u8]) -> (r: Result<Frame, DecodeError>)
    ensures
        match r {
            Ok(f) => spec_decode(b@) == Ok::<_, DecodeError>((f.expires_at, f.version, f.payload@)),
            Err(e) => spec_decode(b@) == Err::<(Option<i64>, u32, Seq<u8>), _>(e),
        },
{
    if b.len() < 1 {
        return Err(DecodeError::Truncated);
    }
    let tag = *slice_index_get(b, 0);
    if tag == TAG_NO_EXPIRY {
        if b.len() < 5 {
            return Err(DecodeError::Truncated);
        }
        let version = u32_from_le_bytes(slice_subrange(b, 1, 5));
        let payload = slice_to_vec(slice_subrange(b, 5, b.len()));
        Ok(Frame { expires_at: None, version, payload })
    } else if tag == TAG_EXPIRY {
        if b.len() < 13 {
            return Err(DecodeError::Truncated);
        }
        let ts = u64_from_le_bytes(slice_subrange(b, 1, 9)) as i64;
        let version = u32_from_le_bytes(slice_subrange(b, 9, 13));
        let payload = slice_to_vec(slice_subrange(b, 13, b.len()));
        Ok(Frame { expires_at: Some(ts), version, payload })
    } else {
        Err(DecodeError::BadTag)
    }
}

/// Decodes only the framing header, leaving the payload untouched.
pub fn decode_header(b: &[u8]) -> (r: Result<(Option<i64>, u32), DecodeError>)
    ensures
        r == spec_decode_header(b@),
{
    if b.len() < 1 {
        return Err(DecodeError::Truncated);
    }
    let tag = *slice_index_get(b, 0);
    if tag == TAG_NO_EXPIRY {
        if b.len() < 5 {
            return Err(DecodeError::Truncated);
        }
        let version = u32_from_le_bytes(slice_subrange(b, 1, 5));
        Ok((None, version))
    } else if tag == TAG_EXPIRY {
        if b.len() < 13 {
            return Err(DecodeError::Truncated);
        }
        let ts = u64_from_le_bytes(slice_subrange(b, 1, 9)) as i64;
        let version = u32_from_le_bytes(slice_subrange(b, 9, 13));
        Ok((Some(ts), version))
    } else {
        Err(DecodeError::BadTag)
    }
}

/// The framing header decodes from encoded bytes no matter what the
/// payload holds: the filter never needs to parse the payload.
pub proof fn lemma_header_round_trip(expires_at: Option<i64>, version: u32, payload: Seq<u8>)
    ensures
        spec_decode_header(spec_encode(expires_at, version, payload)) == Ok::<_, DecodeError>(
            (expires_at, version),
        ),
{
    lemma_auto_spec_u32_to_from_le_bytes();
    lemma_auto_spec_u64_to_from_le_bytes();
    let b = spec_encode(expires_at, version, payload);
    match expires_at {
        None => {
            assert(b[0] == TAG_NO_EXPIRY);
            assert(b.subrange(1, 5) =~= spec_u32_to_le_bytes(version));
        },
        Some(ts) => {
            assert(b[0] == TAG_EXPIRY);
            assert(b.subrange(1, 9) =~= spec_u64_to_le_bytes(ts as u64));
            assert(b.subrange(9, 13) =~= spec_u32_to_le_bytes(version));
            assert((ts as u64) as i64 == ts) by (bit_vector);
        },
    }
}

/// Round trip: decoding an encoded record gives back exactly the expiry,
/// the version and the payload that went in.
pub proof fn lemma_codec_round_trip(expires_at: Option<i64>, version: u32, payload: Seq<u8>)
    ensures
        spec_decode(spec_encode(expires_at, version, payload)) == Ok::<_, DecodeError>(
            (expires_at, version, payload),
        ),
{
    lemma_header_round_trip(expires_at, version, payload);
    lemma_auto_spec_u32_to_from_le_bytes();
    lemma_auto_spec_u64_to_from_le_bytes();
    let b = spec_encode(expires_at, version, payload);
    match expires_at {
        None => {
            assert(b.skip(5) =~= payload);
        },
        Some(ts) => {
            assert(b.skip(13) =~= payload);
        },
    }
}

} // verus!
