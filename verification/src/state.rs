//! The fee configuration that trade calls read.

use vstd::prelude::*;
use crate::error::ProxyError;
use crate::identity::Identity;
use crate::record::borsh_read_record;
use crate::record::record_of;

verus! {

/// Fee rate and fee wallet, as persisted in the configuration account.
#[derive(Clone, Copy, Debug)]
pub struct TradeFeeState {
    /// Percentage of the traded amount taken as fee.
    pub fee_rate: u8,
    /// Receiver of the fee.
    pub fee_wallet: Identity,
}

impl TradeFeeState {
    /// Whether this value is what the record `data` holds.
    pub open spec fn is_record(self, data: Seq<u8>) -> bool {
        record_of(data) == Some((self.fee_rate, self.fee_wallet@))
    }

    /// Decodes the record. Anything but exactly 33 bytes is rejected.
    pub fn try_from_slice(data: &[u8]) -> (state: Result<TradeFeeState, ProxyError>)
        ensures
            match state {
                Err(e) => e == ProxyError::MalformedState && record_of(data@) is None,
                Ok(found) => found.is_record(data@),
            },
    {
        match borsh_read_record(data) {
            None => Err(ProxyError::MalformedState),
            Some((fee_rate, fee_wallet)) => Ok(
                TradeFeeState { fee_rate, fee_wallet: Identity::new(fee_wallet) },
            ),
        }
    }
}

} // verus!
