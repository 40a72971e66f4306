//! Failure codes surfaced to the caller.

use vstd::prelude::*;

verus! {

/// Why a call was rejected. Every failure aborts the whole call.
#[derive(Clone, Copy, Debug, PartialEq, Eq, Structural)]
pub enum ProxyError {
    /// A required signer did not sign.
    MissingAuthorization,
    /// The signer is present but is not the authorized identity.
    AuthorizationDenied,
    /// The payload is too short for the operation.
    MalformedPayload,
    /// The persisted configuration record does not parse, or does not fit its account.
    MalformedState,
    /// The declared fee receiver is not the configured fee wallet.
    RecipientMismatch,
    /// The payer's balance is below the fee, or the fee exceeds the traded amount.
    InsufficientFunds,
    /// The fee does not fit in 64 bits.
    ArithmeticOverflow,
    /// No operation has the given opcode.
    UnknownOperation,
    /// The account list is shorter than the operation's fixed prefix.
    NotEnoughAccounts,
    /// A sub-call failed; the host's code is carried unchanged.
    CallFailed(u64),
}

} // verus!
