//! Percentage fee arithmetic.

use vstd::prelude::*;
use crate::error::ProxyError;

verus! {

/// The fee owed on `amount` at `fee_rate` percent, rounded down.
pub open spec fn fee_of(amount: u64, fee_rate: u8) -> int {
    (amount as int * fee_rate as int) / 100
}

/// What is left of `amount` once the fee is taken.
pub open spec fn remaining_of(amount: u64, fee_rate: u8) -> int {
    amount as int - fee_of(amount, fee_rate)
}

/// The outcome of splitting `amount` into fee and remainder: the fee must fit
/// in 64 bits and must not exceed the amount.
pub open spec fn split_of(amount: u64, fee_rate: u8) -> Result<(u64, u64), ProxyError> {
    if fee_of(amount, fee_rate) > u64::MAX {
        Err(ProxyError::ArithmeticOverflow)
    } else if fee_of(amount, fee_rate) > amount {
        Err(ProxyError::InsufficientFunds)
    } else {
        Ok((fee_of(amount, fee_rate) as u64, remaining_of(amount, fee_rate) as u64))
    }
}

/// For a rate of at most 100 percent the fee is the rounded-down percentage,
/// never exceeds the amount, and fee and remainder add up to the amount, all
/// within 64 bits.
pub proof fn lemma_fee_within_amount(amount: u64, fee_rate: u8)
    requires
        fee_rate <= 100,
    ensures
        0 <= fee_of(amount, fee_rate) <= amount,
        0 <= remaining_of(amount, fee_rate) <= amount,
        fee_of(amount, fee_rate) + remaining_of(amount, fee_rate) == amount,
        100 * fee_of(amount, fee_rate) <= amount * fee_rate < 100 * (fee_of(amount, fee_rate) + 1),
        split_of(amount, fee_rate) == Ok::<(u64, u64), ProxyError>(
            (fee_of(amount, fee_rate) as u64, remaining_of(amount, fee_rate) as u64),
        ),
{
    let product = amount as int * fee_rate as int;
    assert(0 <= product <= amount as int * 100) by (nonlinear_arith)
        requires
            product == amount as int * fee_rate as int,
            0 <= fee_rate <= 100,
            0 <= amount,
    ;
}

/// Computes the fee on `amount` at `fee_rate` percent in 128-bit arithmetic.
/// Fails only when the fee itself does not fit in 64 bits, which needs a rate
/// above 100.
pub fn calculate_fee(amount: u64, fee_rate: u8) -> (fee: Result<u64, ProxyError>)
    ensures
        fee_of(amount, fee_rate) <= u64::MAX ==> fee == Ok::<u64, ProxyError>(
            fee_of(amount, fee_rate) as u64,
        ),
        fee_of(amount, fee_rate) > u64::MAX ==> fee == Err::<u64, ProxyError>(
            ProxyError::ArithmeticOverflow,
        ),
        fee_rate <= 100 ==> fee is Ok,
{
    assert(0 <= amount as int * fee_rate as int <= 0xffff_ffff_ffff_ffff * 255) by (nonlinear_arith)
        requires
            0 <= amount <= 0xffff_ffff_ffff_ffff,
            0 <= fee_rate <= 255,
    ;
    let product: u128 = (amount as u128) * (fee_rate as u128);
    let fee: u128 = product / 100;
    proof {
        if fee_rate <= 100 {
            lemma_fee_within_amount(amount, fee_rate);
        }
    }
    if fee > u64::MAX as u128 {
        Err(ProxyError::ArithmeticOverflow)
    } else {
        Ok(fee as u64)
    }
}

/// Splits `amount` into the fee and what remains for the trade.
pub fn split_amount(amount: u64, fee_rate: u8) -> (split: Result<(u64, u64), ProxyError>)
    ensures
        split == split_of(amount, fee_rate),
        fee_rate <= 100 ==> split is Ok,
        split matches Ok((fee, remaining)) ==> fee + remaining == amount,
{
    proof {
        if fee_rate <= 100 {
            lemma_fee_within_amount(amount, fee_rate);
        }
    }
    match calculate_fee(amount, fee_rate) {
        Err(e) => Err(e),
        Ok(fee) => {
            if fee > amount {
                Err(ProxyError::InsufficientFunds)
            } else {
                Ok((fee, amount - fee))
            }
        },
    }
}

} // verus!
