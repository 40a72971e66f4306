//! Byte-level framing of trade payloads: the little-endian amount field and
//! the payload forwarded to a venue.

use vstd::prelude::*;
use crate::error::ProxyError;

verus! {

/// Length of a selector and of an amount field.
pub const FIELD_LEN: usize = 8;

/// The shortest payload in which the venue's own amount field is complete.
pub const MIN_FORWARD_LEN: usize = 16;

/// The number that the first eight bytes of `bytes` encode, least significant byte first.
pub open spec fn le_u64(bytes: Seq<u8>) -> int {
    bytes[0] as int
        + bytes[1] as int * 0x100
        + bytes[2] as int * 0x1_0000
        + bytes[3] as int * 0x100_0000
        + bytes[4] as int * 0x1_0000_0000
        + bytes[5] as int * 0x100_0000_0000
        + bytes[6] as int * 0x1_0000_0000_0000
        + bytes[7] as int * 0x100_0000_0000_0000
}

/// The eight bytes that encode `value`, least significant byte first: each
/// byte is the remainder by 256 of what the bytes before it left over.
pub open spec fn u64_le_bytes(value: u64) -> Seq<u8> {
    let q1 = value / 0x100;
    let q2 = q1 / 0x100;
    let q3 = q2 / 0x100;
    let q4 = q3 / 0x100;
    let q5 = q4 / 0x100;
    let q6 = q5 / 0x100;
    let q7 = q6 / 0x100;
    seq![
        (value % 0x100) as u8,
        (q1 % 0x100) as u8,
        (q2 % 0x100) as u8,
        (q3 % 0x100) as u8,
        (q4 % 0x100) as u8,
        (q5 % 0x100) as u8,
        (q6 % 0x100) as u8,
        (q7 % 0x100) as u8,
    ]
}

/// Encoding a number and decoding the bytes gives the number back.
pub proof fn lemma_le_round_trip(value: u64)
    ensures
        u64_le_bytes(value).len() == 8,
        le_u64(u64_le_bytes(value)) == value,
{
    let q1 = value / 0x100;
    let q2 = q1 / 0x100;
    let q3 = q2 / 0x100;
    let q4 = q3 / 0x100;
    let q5 = q4 / 0x100;
    let q6 = q5 / 0x100;
    let q7 = q6 / 0x100;
    assert(q7 < 0x100);
    assert(q7 % 0x100 == q7);
}

/// A byte in front of a number: dividing by 256 takes it off again.
proof fn lemma_low_byte(low: u8, high: int)
    requires
        0 <= high,
    ensures
        (low + 0x100 * high) % 0x100 == low,
        (low + 0x100 * high) / 0x100 == high,
{
}

/// Any eight bytes decode to a 64-bit number whose encoding is those bytes.
pub proof fn lemma_le_decode_encode(bytes: Seq<u8>)
    requires
        bytes.len() == 8,
    ensures
        0 <= le_u64(bytes) <= u64::MAX,
        u64_le_bytes(le_u64(bytes) as u64) == bytes,
{
    let k7 = bytes[7] as int;
    let k6 = bytes[6] + 0x100 * k7;
    let k5 = bytes[5] + 0x100 * k6;
    let k4 = bytes[4] + 0x100 * k5;
    let k3 = bytes[3] + 0x100 * k4;
    let k2 = bytes[2] + 0x100 * k3;
    let k1 = bytes[1] + 0x100 * k2;
    let k0 = bytes[0] + 0x100 * k1;
    assert(k0 == le_u64(bytes));
    lemma_low_byte(bytes[0], k1);
    lemma_low_byte(bytes[1], k2);
    lemma_low_byte(bytes[2], k3);
    lemma_low_byte(bytes[3], k4);
    lemma_low_byte(bytes[4], k5);
    lemma_low_byte(bytes[5], k6);
    lemma_low_byte(bytes[6], k7);
    lemma_low_byte(bytes[7], 0);
    assert(u64_le_bytes(k0 as u64) =~= bytes);
}

/// The traded amount of a payload: its first eight bytes, little-endian.
pub open spec fn amount_of(payload: Seq<u8>) -> Result<u64, ProxyError> {
    if payload.len() < 8 {
        Err(ProxyError::MalformedPayload)
    } else {
        Ok(le_u64(payload) as u64)
    }
}

/// Reads the traded amount from the front of `payload`.
pub fn read_amount(payload: &[u8]) -> (amount: Result<u64, ProxyError>)
    ensures
        amount == amount_of(payload@),
{
    if payload.len() < FIELD_LEN {
        return Err(ProxyError::MalformedPayload);
    }
    let b7: u64 = payload[7] as u64;
    let b6: u64 = payload[6] as u64;
    let b5: u64 = payload[5] as u64;
    let b4: u64 = payload[4] as u64;
    let b3: u64 = payload[3] as u64;
    let b2: u64 = payload[2] as u64;
    let b1: u64 = payload[1] as u64;
    let b0: u64 = payload[0] as u64;
    let value: u64 = ((((((b7 * 0x100 + b6) * 0x100 + b5) * 0x100 + b4) * 0x100 + b3) * 0x100 + b2)
        * 0x100 + b1) * 0x100 + b0;
    Ok(value)
}

/// Encodes `value` in eight bytes, least significant byte first.
pub fn amount_bytes(value: u64) -> (bytes: [u8; 8])
    ensures
        bytes@ == u64_le_bytes(value),
{
    let q1: u64 = value / 0x100;
    let q2: u64 = q1 / 0x100;
    let q3: u64 = q2 / 0x100;
    let q4: u64 = q3 / 0x100;
    let q5: u64 = q4 / 0x100;
    let q6: u64 = q5 / 0x100;
    let q7: u64 = q6 / 0x100;
    let bytes: [u8; 8] = [
        (value % 0x100) as u8,
        (q1 % 0x100) as u8,
        (q2 % 0x100) as u8,
        (q3 % 0x100) as u8,
        (q4 % 0x100) as u8,
        (q5 % 0x100) as u8,
        (q6 % 0x100) as u8,
        (q7 % 0x100) as u8,
    ];
    assert(bytes@ =~= u64_le_bytes(value));
    bytes
}

/// The payload handed to the venue: the venue's selector in place of the
/// caller's amount, the venue's amount field set to `remaining`, and every
/// later byte as the caller sent it.
pub open spec fn forwarded_payload_of(selector: Seq<u8>, payload: Seq<u8>, remaining: u64) -> Seq<u8> {
    selector + u64_le_bytes(remaining) + payload.skip(16)
}

/// Framing of the forwarded payload: it is as long as the payload it was
/// built from, starts with the selector, carries `remaining` little-endian in
/// bytes 8 to 15, and keeps every byte from 16 on.
pub proof fn lemma_forwarded_payload_framing(selector: Seq<u8>, payload: Seq<u8>, remaining: u64)
    requires
        selector.len() == 8,
        payload.len() >= 16,
    ensures
        forwarded_payload_of(selector, payload, remaining).len() == payload.len(),
        forwarded_payload_of(selector, payload, remaining).subrange(0, 8) == selector,
        forwarded_payload_of(selector, payload, remaining).subrange(8, 16) == u64_le_bytes(remaining),
        le_u64(forwarded_payload_of(selector, payload, remaining).subrange(8, 16)) == remaining,
        forall|i: int|
            16 <= i < payload.len() ==> forwarded_payload_of(selector, payload, remaining)[i]
                == payload[i],
{
    let out = forwarded_payload_of(selector, payload, remaining);
    assert(out.subrange(0, 8) =~= selector);
    assert(out.subrange(8, 16) =~= u64_le_bytes(remaining));
    lemma_le_round_trip(remaining);
}

/// Builds the venue's payload from the caller's. A payload too short to hold
/// the venue's amount field is rejected.
pub fn build_forwarded_payload(selector: &[u8; 8], payload: &[u8], remaining: u64) -> (out: Result<
    Vec<u8>,
    ProxyError,
>)
    ensures
        payload@.len() < 16 ==> out == Err::<Vec<u8>, ProxyError>(ProxyError::MalformedPayload),
        payload@.len() >= 16 ==> out is Ok && out->Ok_0@ == forwarded_payload_of(
            selector@,
            payload@,
            remaining,
        ),
{
    if payload.len() < MIN_FORWARD_LEN {
        return Err(ProxyError::MalformedPayload);
    }
    let field = amount_bytes(remaining);
    let mut data: Vec<u8> = Vec::with_capacity(payload.len());
    let mut i: usize = 0;
    while i < 8
        invariant
            i <= 8,
            data@ == selector@.take(i as int),
        decreases 8 - i,
    {
        data.push(selector[i]);
        i += 1;
        assert(data@ =~= selector@.take(i as int));
    }
    assert(selector@.take(8) =~= selector@);
    let mut j: usize = 0;
    while j < 8
        invariant
            j <= 8,
            data@ == selector@ + field@.take(j as int),
        decreases 8 - j,
    {
        data.push(field[j]);
        j += 1;
        assert(data@ =~= selector@ + field@.take(j as int));
    }
    assert(field@.take(8) =~= field@);
    let mut k: usize = 16;
    while k < payload.len()
        invariant
            16 <= k <= payload.len(),
            data@ == selector@ + field@ + payload@.subrange(16, k as int),
        decreases payload.len() - k,
    {
        data.push(payload[k]);
        k += 1;
        assert(data@ =~= selector@ + field@ + payload@.subrange(16, k as int));
    }
    assert(payload@.subrange(16, k as int) =~= payload@.skip(16));
    Ok(data)
}

} // verus!
