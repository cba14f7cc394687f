use persistence::timeconv::offset_from_reference;
use persistence::timeconv::reference_plus;
use persistence::Cachable;

#[test]
fn offset_forward_and_backward() {
    assert_eq!(offset_from_reference(1_500, 1_000), (true, 500));
    assert_eq!(offset_from_reference(1_000, 1_500), (false, 500));
    assert_eq!(offset_from_reference(1_000, 1_000), (true, 0));
}

#[test]
fn offset_spans_the_whole_timeline() {
    assert_eq!(offset_from_reference(i64::MAX, i64::MIN), (true, u64::MAX));
    assert_eq!(offset_from_reference(i64::MIN, i64::MAX), (false, u64::MAX));
    assert_eq!(offset_from_reference(-1, 1), (false, 2));
}

#[test]
fn reference_plus_checks_overflow() {
    assert_eq!(reference_plus(1_000, 234), Some(1_234));
    assert_eq!(reference_plus(i64::MAX, 0), Some(i64::MAX));
    assert_eq!(reference_plus(i64::MAX, 1), None);
    assert_eq!(reference_plus(-1_000, 3_000), Some(2_000));
    assert_eq!(reference_plus(0, u64::MAX), None);
}

#[test]
fn payload_types_round_trip() {
    let wide: u64 = 0xDEAD_BEEF_0123_4567;
    assert_eq!(u64::from_cache_bytes(&wide.to_cache_bytes()), Some(wide));
    let narrow: u32 = 0xCAFE_F00D;
    assert_eq!(u32::from_cache_bytes(&narrow.to_cache_bytes()), Some(narrow));
    assert_eq!(u64::from_cache_bytes(&[1, 2, 3]), None);
    assert_eq!(u32::from_cache_bytes(&[1, 2, 3, 4, 5]), None);
    assert_eq!(u64::cache_version(), 1);
    assert_eq!(u32::cache_version(), 2);
}
