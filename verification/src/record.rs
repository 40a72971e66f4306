//! The persisted configuration record: one byte of fee rate followed by the
//! 32 bytes of the fee wallet, encoded and decoded by borsh.

use vstd::prelude::*;
use borsh::BorshDeserialize;
use borsh::BorshSerialize;

verus! {

/// Length of the record in bytes.
pub const RECORD_LEN: usize = 33;

/// The largest fee rate that may be stored: the whole amount.
pub const MAX_FEE_RATE: u8 = 100;

/// The fee rate and wallet bytes that `data` holds, if it is a record: exactly
/// 33 bytes, the rate first.
pub open spec fn record_of(data: Seq<u8>) -> Option<(u8, Seq<u8>)> {
    if data.len() == 33 {
        Some((data[0], data.subrange(1, 33)))
    } else {
        None
    }
}

/// Whether `data` is a record whose rate is a percentage: at most 100. With
/// such a rate the fee never exceeds the amount it is taken from.
pub open spec fn rate_in_range(data: Seq<u8>) -> bool {
    data.len() == 33 && data[0] <= 100
}

/// The 33 bytes of the record with the given rate and wallet.
pub open spec fn record_bytes(fee_rate: u8, fee_wallet: Seq<u8>) -> Seq<u8> {
    seq![fee_rate] + fee_wallet
}

/// What a record's bytes decode to is what they were encoded from.
pub proof fn lemma_record_round_trip(fee_rate: u8, fee_wallet: Seq<u8>)
    requires
        fee_wallet.len() == 32,
    ensures
        record_of(record_bytes(fee_rate, fee_wallet)) == Some((fee_rate, fee_wallet)),
{
    assert(record_bytes(fee_rate, fee_wallet).subrange(1, 33) =~= fee_wallet);
}

/// Calls borsh's `BorshDeserialize::try_from_slice` for the pair of a `u8`
/// and a `[u8; 32]`. Borsh reads the one byte, then the 32 bytes, and fails
/// if the input ends early or if any byte is left over, so the call succeeds
/// exactly on 33 bytes. Not proved: taken from borsh's source.
#[verifier::external_body]
pub(crate) fn borsh_read_record(data: &[u8]) -> (record: Option<(u8, [u8; 32])>)
    ensures
        match record {
            None => record_of(data@) is None,
            Some((fee_rate, fee_wallet)) => record_of(data@) == Some((fee_rate, fee_wallet@)),
        },
{
    <(u8, [u8; 32])>::try_from_slice(data).ok()
}

/// Calls borsh's `BorshSerialize::serialize` for the pair of a `u8` and a
/// `[u8; 32]`, writing into the front of `data`. Borsh writes the one byte,
/// then the 32 bytes; writing into a slice fails once the slice is full, so
/// the call succeeds exactly when `data` has room for 33 bytes, and then only
/// those change. The length never changes. Not proved: taken from borsh's
/// source and the documentation of writing into a byte slice.
#[verifier::external_body]
pub(crate) fn borsh_write_record(fee_rate: u8, fee_wallet: &[u8; 32], data: &mut Vec<u8>) -> (written: bool)
    ensures
        written <==> old(data)@.len() >= 33,
        written ==> final(data)@ == record_bytes(fee_rate, fee_wallet@) + old(data)@.skip(33),
        final(data)@.len() == old(data)@.len(),
{
    (fee_rate, *fee_wallet).serialize(&mut &mut data[..]).is_ok()
}

} // verus!
