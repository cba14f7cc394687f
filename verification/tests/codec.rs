use persistence::codec::decode;
use persistence::codec::decode_header;
use persistence::codec::encode;
use persistence::codec::DecodeError;
use persistence::codec::TAG_EXPIRY;
use persistence::codec::TAG_NO_EXPIRY;

#[test]
fn round_trip_without_expiry() {
    let bytes = encode(None, 7, &[1, 2, 3]);
    let frame = decode(&bytes).unwrap();
    assert_eq!(frame.expires_at, None);
    assert_eq!(frame.version, 7);
    assert_eq!(frame.payload, vec![1, 2, 3]);
}

#[test]
fn round_trip_with_expiry() {
    let bytes = encode(Some(1_234_567_890_123), 42, &[9, 8, 7, 6]);
    let frame = decode(&bytes).unwrap();
    assert_eq!(frame.expires_at, Some(1_234_567_890_123));
    assert_eq!(frame.version, 42);
    assert_eq!(frame.payload, vec![9, 8, 7, 6]);
}

#[test]
fn round_trip_negative_expiry() {
    let bytes = encode(Some(-1), 1, &[]);
    let frame = decode(&bytes).unwrap();
    assert_eq!(frame.expires_at, Some(-1));
    assert_eq!(frame.version, 1);
    assert_eq!(frame.payload, Vec::<u8>::new());
}

#[test]
fn round_trip_empty_payload() {
    let bytes = encode(None, 0, &[]);
    let frame = decode(&bytes).unwrap();
    assert_eq!(frame.expires_at, None);
    assert_eq!(frame.version, 0);
    assert!(frame.payload.is_empty());
}

#[test]
fn decode_empty_is_truncated() {
    assert_eq!(decode(&[]).err(), Some(DecodeError::Truncated));
    assert_eq!(decode_header(&[]).err(), Some(DecodeError::Truncated));
}

#[test]
fn decode_short_header_is_truncated() {
    assert_eq!(decode(&[TAG_NO_EXPIRY, 1, 2]).err(), Some(DecodeError::Truncated));
    assert_eq!(
        decode(&[TAG_EXPIRY, 1, 2, 3, 4, 5, 6, 7, 8, 9]).err(),
        Some(DecodeError::Truncated)
    );
}

#[test]
fn decode_unknown_tag_is_rejected() {
    assert_eq!(decode(&[9, 0, 0, 0, 0]).err(), Some(DecodeError::BadTag));
    assert_eq!(decode_header(&[255]).err(), Some(DecodeError::BadTag));
}

#[test]
fn header_decodes_without_touching_payload() {
    let bytes = encode(Some(5000), 3, &[200, 201, 202]);
    assert_eq!(decode_header(&bytes).unwrap(), (Some(5000), 3));
    let no_payload = encode(Some(5000), 3, &[]);
    assert_eq!(decode_header(&no_payload).unwrap(), (Some(5000), 3));
}

#[test]
fn encoded_layout_is_fixed() {
    let bytes = encode(None, 1, &[0xAA]);
    assert_eq!(bytes, vec![TAG_NO_EXPIRY, 1, 0, 0, 0, 0xAA]);
    let with_ts = encode(Some(1), 1, &[]);
    assert_eq!(with_ts, vec![TAG_EXPIRY, 1, 0, 0, 0, 0, 0, 0, 0, 1, 0, 0, 0]);
}
