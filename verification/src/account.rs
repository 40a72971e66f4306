//! Accounts as a call sees them, and the instructions built from them.

use vstd::prelude::*;
use crate::identity::Identity;

verus! {

/// One entry of a call's account list.
#[derive(Clone, Debug)]
pub struct Account {
    /// Address of the account.
    pub key: Identity,
    /// Whether the account's owner authorized this call.
    pub is_signer: bool,
    /// Whether the call may change the account.
    pub is_writable: bool,
    /// Spendable balance in the native settlement asset.
    pub lamports: u64,
    /// The account's stored bytes.
    pub data: Vec<u8>,
}

/// What an outgoing instruction records of an account.
#[derive(Clone, Copy, Debug)]
pub struct AccountMeta {
    pub pubkey: Identity,
    pub is_signer: bool,
    pub is_writable: bool,
}

/// A call to another program.
#[derive(Clone, Debug)]
pub struct Instruction {
    /// The program that is called.
    pub program_id: Identity,
    /// The accounts handed to it, in order.
    pub accounts: Vec<AccountMeta>,
    /// The payload, selector first.
    pub data: Vec<u8>,
}

impl Account {
    /// The metadata under which this account is forwarded: same address, same flags.
    pub open spec fn meta(self) -> AccountMeta {
        AccountMeta { pubkey: self.key, is_signer: self.is_signer, is_writable: self.is_writable }
    }
}

/// The metadata of each account of `accounts`, in the same order.
pub open spec fn metas_of(accounts: Seq<Account>) -> Seq<AccountMeta> {
    Seq::new(accounts.len(), |i: int| accounts[i].meta())
}

/// Maps every account to its metadata, keeping order, duplicates and flags.
pub fn to_account_metas(accounts: &[Account]) -> (metas: Vec<AccountMeta>)
    ensures
        metas@ == metas_of(accounts@),
{
    let mut metas: Vec<AccountMeta> = Vec::with_capacity(accounts.len());
    let mut i: usize = 0;
    while i < accounts.len()
        invariant
            i <= accounts.len(),
            metas@ == metas_of(accounts@.take(i as int)),
        decreases accounts.len() - i,
    {
        let account = &accounts[i];
        let meta = match account.is_writable {
            false => AccountMeta { pubkey: account.key, is_signer: account.is_signer, is_writable: false },
            true => AccountMeta { pubkey: account.key, is_signer: account.is_signer, is_writable: true },
        };
        metas.push(meta);
        i += 1;
        assert(metas@ =~= metas_of(accounts@.take(i as int)));
    }
    assert(accounts@.take(i as int) =~= accounts@);
    metas
}

} // verus!
