//! The system program's transfer instruction, as solana-program builds it.

use vstd::prelude::*;
use crate::account::AccountMeta;
use crate::account::Instruction;
use crate::identity::Identity;
use crate::payload::u64_le_bytes;
use solana_program::pubkey::Pubkey;

verus! {

/// The payload of the system program's transfer of `lamports`: the number 2,
/// which names the transfer among the system program's instructions, in four
/// bytes, then the amount in eight, both little-endian.
pub open spec fn system_transfer_data(lamports: u64) -> Seq<u8> {
    seq![2u8, 0u8, 0u8, 0u8] + u64_le_bytes(lamports)
}

/// The system program's address: 32 zero bytes.
pub open spec fn system_program_id() -> Seq<u8> {
    Seq::new(32, |i: int| 0u8)
}

/// The accounts of a transfer: the payer signs and is writable, the receiver
/// is writable and does not sign.
pub open spec fn system_transfer_accounts(from: Identity, to: Identity) -> Seq<AccountMeta> {
    seq![
        AccountMeta { pubkey: from, is_signer: true, is_writable: true },
        AccountMeta { pubkey: to, is_signer: false, is_writable: true },
    ]
}

/// Calls `solana_program::system_instruction::transfer`. The instruction it
/// returns is addressed to the system program, lists the payer as a writable
/// signer and the receiver as writable, and carries the third variant of the
/// system program's instructions with the amount, which bincode encodes in
/// fixed width, little-endian. Not proved: taken from the sources of
/// solana-program and bincode.
#[verifier::external_body]
pub(crate) fn system_transfer(from: &Identity, to: &Identity, lamports: u64) -> (ix: Instruction)
    ensures
        ix.program_id@ == system_program_id(),
        ix.accounts@ == system_transfer_accounts(*from, *to),
        ix.data@ == system_transfer_data(lamports),
{
    let ix = solana_program::system_instruction::transfer(
        &Pubkey::new_from_array(from.bytes),
        &Pubkey::new_from_array(to.bytes),
        lamports,
    );
    Instruction {
        program_id: Identity { bytes: ix.program_id.to_bytes() },
        accounts: ix.accounts.iter().map(|m| AccountMeta {
            pubkey: Identity { bytes: m.pubkey.to_bytes() },
            is_signer: m.is_signer,
            is_writable: m.is_writable,
        }).collect(),
        data: ix.data,
    }
}

} // verus!
