use dex::error::ProxyError;
use dex::payload::{amount_bytes, build_forwarded_payload, read_amount};

#[test]
fn amount_is_little_endian() {
    assert_eq!(read_amount(&[0x40, 0x42, 0x0f, 0, 0, 0, 0, 0]), Ok(1_000_000));
    assert_eq!(read_amount(&[1, 2, 3, 4, 5, 6, 7, 8, 9, 10]), Ok(0x0807_0605_0403_0201));
    assert_eq!(read_amount(&[0xff; 8]), Ok(u64::MAX));
    assert_eq!(amount_bytes(950_000), [0xf0, 0x7e, 0x0e, 0, 0, 0, 0, 0]);
}

#[test]
fn amount_codec_agrees_with_std() {
    let values = [0u64, 1, 255, 256, 950_000, 0x0102_0304_0506_0708, u64::MAX];
    for value in values {
        assert_eq!(amount_bytes(value), value.to_le_bytes());
        assert_eq!(read_amount(&value.to_le_bytes()), Ok(value));
    }
}

#[test]
fn short_payload_has_no_amount() {
    assert_eq!(read_amount(&[]), Err(ProxyError::MalformedPayload));
    assert_eq!(read_amount(&[1, 2, 3, 4, 5, 6, 7]), Err(ProxyError::MalformedPayload));
}

#[test]
fn forwarded_payload_keeps_length_and_tail() {
    let selector = [102, 6, 61, 18, 1, 218, 235, 234];
    let mut payload = Vec::new();
    payload.extend_from_slice(&1_000_000u64.to_le_bytes());
    payload.extend_from_slice(&[0xaa; 8]);
    payload.extend_from_slice(&[9, 8, 7, 6, 5, 4, 3, 2, 1]);
    let out = build_forwarded_payload(&selector, &payload, 950_000).unwrap();
    assert_eq!(out.len(), payload.len());
    assert_eq!(&out[..8], &selector);
    assert_eq!(&out[8..16], &950_000u64.to_le_bytes());
    assert_eq!(&out[16..], &payload[16..]);
}

#[test]
fn forwarded_payload_of_exactly_sixteen_bytes() {
    let out = build_forwarded_payload(&[1; 8], &[0; 16], 7).unwrap();
    assert_eq!(out, vec![1, 1, 1, 1, 1, 1, 1, 1, 7, 0, 0, 0, 0, 0, 0, 0]);
}

#[test]
fn forwarded_payload_needs_the_venue_amount_field() {
    assert_eq!(build_forwarded_payload(&[1; 8], &[0; 15], 7), Err(ProxyError::MalformedPayload));
    assert_eq!(build_forwarded_payload(&[1; 8], &[0; 8], 7), Err(ProxyError::MalformedPayload));
    assert_eq!(build_forwarded_payload(&[1; 8], &[], 7), Err(ProxyError::MalformedPayload));
}
