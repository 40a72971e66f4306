//! The fee proxy: checks a trade call, computes the fee, and plans the fee
//! transfer and the call forwarded to the venue.

use vstd::prelude::*;
use crate::account::metas_of;
use crate::account::to_account_metas;
use crate::account::Account;
use crate::account::Instruction;
use crate::error::ProxyError;
use crate::fee::fee_of;
use crate::fee::lemma_fee_within_amount;
use crate::fee::remaining_of;
use crate::fee::split_amount;
use crate::fee::split_of;
use crate::identity::Identity;
use crate::payload::build_forwarded_payload;
use crate::payload::forwarded_payload_of;
use crate::payload::le_u64;
use crate::payload::lemma_forwarded_payload_framing;
use crate::payload::amount_of;
use crate::payload::lemma_le_round_trip;
use crate::payload::read_amount;
use crate::payload::u64_le_bytes;
use crate::record::rate_in_range;
use crate::record::record_of;
use crate::state::TradeFeeState;
use crate::system::system_program_id;
use crate::system::system_transfer;
use crate::system::system_transfer_accounts;
use crate::system::system_transfer_data;

verus! {

/// Selector of the first venue's buy instruction.
pub const PUMPFUN_BUY_SELECTOR: [u8; 8] = [102, 6, 61, 18, 1, 218, 235, 234];

/// Selector of the first venue's sell instruction.
pub const PUMPFUN_SELL_SELECTOR: [u8; 8] = [51, 230, 133, 164, 1, 127, 131, 173];

/// Selector of the first venue's pool buy instruction.
pub const PUMPAMM_BUY_SELECTOR: [u8; 8] = [102, 6, 61, 18, 1, 218, 235, 234];

/// Selector of the first venue's pool sell instruction.
pub const PUMPAMM_SELL_SELECTOR: [u8; 8] = [51, 230, 133, 164, 1, 127, 131, 173];

/// Opcode of a buy on the first venue.
pub const PUMP_SELECTOR: [u8; 8] = [82, 225, 119, 231, 78, 29, 45, 70];

/// Opcode of a buy on the first venue's pools.
pub const PUMP_AMM_SELECTOR: [u8; 8] = [129, 59, 179, 195, 110, 135, 61, 2];

/// Opcode of a sell on the first venue.
pub const PUMP_SELL_SELECTOR: [u8; 8] = [83, 225, 119, 231, 78, 29, 45, 70];

/// Opcode of a sell on the first venue's pools.
pub const PUMP_AMM_SELL_SELECTOR: [u8; 8] = [130, 59, 179, 195, 110, 135, 61, 2];

/// Address of the first venue's program, `6EF8rrecthR5Dkzon8Nwu78hRvfCKubJ14M5uBEwF6P`.
pub const PUMP_PROGRAM: [u8; 32] = [
    1, 86, 224, 246, 147, 102, 90, 207, 68, 219, 21, 104, 191, 23, 91, 170,
    81, 137, 203, 151, 245, 210, 255, 59, 101, 93, 43, 182, 253, 109, 24, 176,
];

/// Address of the first venue's pool program, `pAMMBay6oceH9fJKBRHGP5D4bD4sWpmSwMn52FMfXEA`.
pub const PUMP_AMM_PROGRAM_ID: [u8; 32] = [
    12, 20, 222, 252, 130, 94, 198, 118, 148, 37, 8, 24, 187, 101, 64, 101,
    244, 41, 141, 49, 86, 213, 113, 180, 212, 248, 9, 12, 24, 233, 168, 99,
];

/// Number of accounts that a trade call puts in front of the venue's own:
/// configuration, system program, fee payer, fee receiver.
pub const PREFIX_LEN: usize = 4;

/// Place of the configuration account in a trade call's account list.
pub const CONFIG_ACCOUNT: usize = 0;

/// Place of the system program.
pub const SYSTEM_PROGRAM_ACCOUNT: usize = 1;

/// Place of the fee payer.
pub const FEE_PAYER_ACCOUNT: usize = 2;

/// Place of the fee receiver.
pub const FEE_RECEIVER_ACCOUNT: usize = 3;

/// The two calls that settle a trade, in the order in which the host must
/// carry them out as one unit: first `transfer`, with the accounts at
/// `FEE_PAYER_ACCOUNT`, `FEE_RECEIVER_ACCOUNT` and `SYSTEM_PROGRAM_ACCOUNT`;
/// then `forward`, with the accounts from `PREFIX_LEN` on.
#[derive(Clone, Debug)]
pub struct FeeProxyPlan {
    /// The fee, in the native settlement asset.
    pub fee: u64,
    /// The amount left for the trade.
    pub remaining: u64,
    /// Moves the fee from the payer to the receiver.
    pub transfer: Instruction,
    /// The caller's trade, with the amount reduced by the fee.
    pub forward: Instruction,
}

/// The first check that a trade call fails, in the order in which they are
/// made, or `None` if it passes them all.
pub open spec fn rejection_of(accounts: Seq<Account>, instruction_data: Seq<u8>) -> Option<ProxyError> {
    if accounts.len() < 4 {
        Some(ProxyError::NotEnoughAccounts)
    } else if !accounts[2].is_signer {
        Some(ProxyError::MissingAuthorization)
    } else {
        match record_of(accounts[0].data@) {
            None => Some(ProxyError::MalformedState),
            Some((fee_rate, fee_wallet)) => if accounts[3].key@ != fee_wallet {
                Some(ProxyError::RecipientMismatch)
            } else {
                match amount_of(instruction_data) {
                    Err(e) => Some(e),
                    Ok(amount) => match split_of(amount, fee_rate) {
                        Err(e) => Some(e),
                        Ok((fee, remaining)) => if accounts[2].lamports < fee {
                            Some(ProxyError::InsufficientFunds)
                        } else if instruction_data.len() < 16 {
                            Some(ProxyError::MalformedPayload)
                        } else {
                            None
                        },
                    },
                }
            },
        }
    }
}

impl FeeProxyPlan {
    /// Whether this is the plan for an accepted trade call: the fee is the
    /// configured percentage of the amount, the transfer moves it from the
    /// third account to the fourth, and the forwarded instruction goes to
    /// `program_id` with the accounts after the fourth, unchanged and in
    /// order, and with the rewritten payload.
    pub open spec fn carries_out(
        self,
        program_id: Identity,
        accounts: Seq<Account>,
        instruction_data: Seq<u8>,
        selector: Seq<u8>,
    ) -> bool {
        &&& record_of(accounts[0].data@) matches Some((fee_rate, fee_wallet))
        &&& amount_of(instruction_data) matches Ok(amount)
        &&& self.fee == fee_of(amount, fee_rate)
        &&& self.remaining == remaining_of(amount, fee_rate)
        &&& self.transfer.program_id@ == system_program_id()
        &&& self.transfer.accounts@ == system_transfer_accounts(accounts[2].key, accounts[3].key)
        &&& self.transfer.data@ == system_transfer_data(self.fee)
        &&& self.forward.program_id == program_id
        &&& self.forward.accounts@ == metas_of(accounts.skip(4))
        &&& self.forward.data@ == forwarded_payload_of(selector, instruction_data, self.remaining)
    }
}

/// Whether `outcome` is what a trade call with these inputs must give: the
/// first failed check as error, else the plan.
pub open spec fn fee_proxy_outcome(
    outcome: Result<FeeProxyPlan, ProxyError>,
    program_id: Identity,
    accounts: Seq<Account>,
    instruction_data: Seq<u8>,
    selector: Seq<u8>,
) -> bool {
    match rejection_of(accounts, instruction_data) {
        Some(e) => outcome == Err::<FeeProxyPlan, ProxyError>(e),
        None => outcome is Ok && outcome->Ok_0.carries_out(
            program_id,
            accounts,
            instruction_data,
            selector,
        ),
    }
}

/// Checks a trade call and plans its settlement. The account list starts
/// with the configuration account, the system program, the fee payer and the
/// fee receiver; the payload starts with the amount. Nothing is transferred
/// or forwarded here: a rejected call yields no plan, so it has no effect.
pub fn process_with_fee(
    program_id: &Identity,
    accounts: &[Account],
    instruction_data: &[u8],
    selector: &[u8; 8],
) -> (outcome: Result<FeeProxyPlan, ProxyError>)
    ensures
        fee_proxy_outcome(outcome, *program_id, accounts@, instruction_data@, selector@),
{
    if accounts.len() < PREFIX_LEN {
        return Err(ProxyError::NotEnoughAccounts);
    }
    let fee_account = &accounts[CONFIG_ACCOUNT];
    let fee_payer = &accounts[FEE_PAYER_ACCOUNT];
    let fee_receiver = &accounts[FEE_RECEIVER_ACCOUNT];

    if !fee_payer.is_signer {
        return Err(ProxyError::MissingAuthorization);
    }
    let trade_fee_config = match TradeFeeState::try_from_slice(fee_account.data.as_slice()) {
        Err(e) => { return Err(e); },
        Ok(config) => config,
    };
    if fee_receiver.key != trade_fee_config.fee_wallet {
        proof {
            Identity::lemma_view_injective(fee_receiver.key, trade_fee_config.fee_wallet);
        }
        return Err(ProxyError::RecipientMismatch);
    }
    let amount = match read_amount(instruction_data) {
        Err(e) => { return Err(e); },
        Ok(amount) => amount,
    };
    let (fee, remaining_amount) = match split_amount(amount, trade_fee_config.fee_rate) {
        Err(e) => { return Err(e); },
        Ok(split) => split,
    };
    if fee_payer.lamports < fee {
        return Err(ProxyError::InsufficientFunds);
    }
    let data = match build_forwarded_payload(selector, instruction_data, remaining_amount) {
        Err(e) => { return Err(e); },
        Ok(data) => data,
    };
    let transfer = system_transfer(&fee_payer.key, &fee_receiver.key, fee);
    let (_, venue_accounts) = accounts.split_at(PREFIX_LEN);
    proof {
        assert(venue_accounts@ =~= accounts@.skip(4));
    }
    let forward = Instruction {
        program_id: *program_id,
        accounts: to_account_metas(venue_accounts),
        data,
    };
    Ok(FeeProxyPlan { fee, remaining: remaining_amount, transfer, forward })
}

/// A buy on the first venue.
pub fn process_pump_buy(accounts: &[Account], instruction_data: &[u8]) -> (outcome: Result<
    FeeProxyPlan,
    ProxyError,
>)
    ensures
        fee_proxy_outcome(
            outcome,
            Identity { bytes: PUMP_PROGRAM },
            accounts@,
            instruction_data@,
            PUMPFUN_BUY_SELECTOR@,
        ),
{
    process_with_fee(&Identity::new(PUMP_PROGRAM), accounts, instruction_data, &PUMPFUN_BUY_SELECTOR)
}

/// A buy on the first venue's pools.
pub fn process_pump_amm_buy(accounts: &[Account], instruction_data: &[u8]) -> (outcome: Result<
    FeeProxyPlan,
    ProxyError,
>)
    ensures
        fee_proxy_outcome(
            outcome,
            Identity { bytes: PUMP_AMM_PROGRAM_ID },
            accounts@,
            instruction_data@,
            PUMPAMM_BUY_SELECTOR@,
        ),
{
    process_with_fee(
        &Identity::new(PUMP_AMM_PROGRAM_ID),
        accounts,
        instruction_data,
        &PUMPAMM_BUY_SELECTOR,
    )
}

/// A sell on the first venue.
pub fn process_pump_sell(accounts: &[Account], instruction_data: &[u8]) -> (outcome: Result<
    FeeProxyPlan,
    ProxyError,
>)
    ensures
        fee_proxy_outcome(
            outcome,
            Identity { bytes: PUMP_PROGRAM },
            accounts@,
            instruction_data@,
            PUMPFUN_SELL_SELECTOR@,
        ),
{
    process_with_fee(&Identity::new(PUMP_PROGRAM), accounts, instruction_data, &PUMPFUN_SELL_SELECTOR)
}

/// A sell on the first venue's pools.
pub fn process_pump_amm_sell(accounts: &[Account], instruction_data: &[u8]) -> (outcome: Result<
    FeeProxyPlan,
    ProxyError,
>)
    ensures
        fee_proxy_outcome(
            outcome,
            Identity { bytes: PUMP_AMM_PROGRAM_ID },
            accounts@,
            instruction_data@,
            PUMPAMM_SELL_SELECTOR@,
        ),
{
    process_with_fee(
        &Identity::new(PUMP_AMM_PROGRAM_ID),
        accounts,
        instruction_data,
        &PUMPAMM_SELL_SELECTOR,
    )
}

/// A fee receiver other than the configured wallet is never paid: whatever
/// else holds of the call, it is rejected, and with `RecipientMismatch` once
/// the payer has signed.
pub proof fn lemma_wrong_receiver_is_rejected(
    outcome: Result<FeeProxyPlan, ProxyError>,
    program_id: Identity,
    accounts: Seq<Account>,
    instruction_data: Seq<u8>,
    selector: Seq<u8>,
)
    requires
        fee_proxy_outcome(outcome, program_id, accounts, instruction_data, selector),
        accounts.len() >= 4,
        record_of(accounts[0].data@) matches Some((_, fee_wallet)) && accounts[3].key@
            != fee_wallet,
    ensures
        outcome is Err,
        accounts[2].is_signer ==> outcome == Err::<FeeProxyPlan, ProxyError>(
            ProxyError::RecipientMismatch,
        ),
{
}

/// With a rate of at most 100 percent the arithmetic never fails: a call is
/// then accepted exactly when the payer signed, the record parses, the
/// receiver is the configured wallet, the payload holds both amount fields,
/// and the payer can afford the fee.
pub proof fn lemma_acceptance(accounts: Seq<Account>, instruction_data: Seq<u8>)
    requires
        accounts.len() >= 4,
        rate_in_range(accounts[0].data@),
    ensures
        rejection_of(accounts, instruction_data) != Some(ProxyError::ArithmeticOverflow),
        rejection_of(accounts, instruction_data) is None <==> {
            &&& accounts[2].is_signer
            &&& record_of(accounts[0].data@) matches Some((fee_rate, fee_wallet))
            &&& accounts[3].key@ == fee_wallet
            &&& instruction_data.len() >= 16
            &&& accounts[2].lamports >= fee_of(le_u64(instruction_data) as u64, fee_rate)
        },
{
    let (fee_rate, fee_wallet) = record_of(accounts[0].data@)->Some_0;
    if instruction_data.len() >= 8 {
        lemma_fee_within_amount(le_u64(instruction_data) as u64, fee_rate);
    }
}

/// What an accepted call's plan does with the amount and the payload: fee
/// and remainder add up to the amount sent, the payer can afford the fee, and
/// the forwarded payload is as long as the one received, starts with the
/// venue's selector, carries the remainder little-endian in bytes 8 to 15 and
/// repeats every later byte. The transfer carries the fee, and the venue gets
/// the accounts behind the prefix with their flags.
pub proof fn lemma_plan_framing(
    plan: FeeProxyPlan,
    program_id: Identity,
    accounts: Seq<Account>,
    instruction_data: Seq<u8>,
    selector: Seq<u8>,
)
    requires
        selector.len() == 8,
        rejection_of(accounts, instruction_data) is None,
        plan.carries_out(program_id, accounts, instruction_data, selector),
    ensures
        plan.fee + plan.remaining == le_u64(instruction_data),
        plan.fee <= accounts[2].lamports,
        plan.transfer.data@.len() == 12,
        le_u64(plan.transfer.data@.subrange(4, 12)) == plan.fee,
        plan.forward.data@.len() == instruction_data.len(),
        plan.forward.data@.subrange(0, 8) == selector,
        le_u64(plan.forward.data@.subrange(8, 16)) == plan.remaining,
        forall|i: int|
            16 <= i < instruction_data.len() ==> plan.forward.data@[i] == instruction_data[i],
        plan.forward.accounts@.len() == accounts.len() - 4,
        forall|i: int|
            0 <= i < accounts.len() - 4 ==> plan.forward.accounts@[i] == accounts[i + 4].meta(),
{
    lemma_forwarded_payload_framing(selector, instruction_data, plan.remaining);
    assert(plan.transfer.data@.subrange(4, 12) =~= u64_le_bytes(plan.fee));
    lemma_le_round_trip(plan.fee);
}

/// One of the two calls of a plan.
#[derive(Clone, Copy, Debug, PartialEq, Eq, Structural)]
pub enum SubCall {
    /// The transfer of the fee.
    FeeTransfer,
    /// The call forwarded to the venue.
    VenueCall,
}

/// What follows once the host has carried out a call of the plan.
#[derive(Clone, Copy, Debug, PartialEq, Eq, Structural)]
pub enum NextStep {
    /// The fee is moved: forward the trade to the venue.
    CallVenue,
    /// Both calls succeeded: the call ends in success and the host commits.
    Succeed,
    /// A call failed: the call ends in this error and the host takes back
    /// whatever the unit had done.
    Fail(ProxyError),
}

/// The step that follows `call` ending in `outcome`: any failure ends the
/// whole call with the host's code unchanged.
pub open spec fn step_after(call: SubCall, outcome: Result<(), u64>) -> NextStep {
    match outcome {
        Err(code) => NextStep::Fail(ProxyError::CallFailed(code)),
        Ok(_) => match call {
            SubCall::FeeTransfer => NextStep::CallVenue,
            SubCall::VenueCall => NextStep::Succeed,
        },
    }
}

/// Decides what follows a call of the plan, given how the host reports it ended.
pub fn next_step(call: SubCall, outcome: Result<(), u64>) -> (next: NextStep)
    ensures
        next == step_after(call, outcome),
{
    match outcome {
        Err(code) => NextStep::Fail(ProxyError::CallFailed(code)),
        Ok(_) => match call {
            SubCall::FeeTransfer => NextStep::CallVenue,
            SubCall::VenueCall => NextStep::Succeed,
        },
    }
}

/// The result of a whole settlement in which the transfer ended in
/// `transfer` and the venue call, if it was reached, in `venue`.
pub open spec fn settlement_of(transfer: Result<(), u64>, venue: Result<(), u64>) -> Result<
    (),
    ProxyError,
> {
    match step_after(SubCall::FeeTransfer, transfer) {
        NextStep::Fail(e) => Err(e),
        NextStep::Succeed => Ok(()),
        NextStep::CallVenue => match step_after(SubCall::VenueCall, venue) {
            NextStep::Fail(e) => Err(e),
            _ => Ok(()),
        },
    }
}

/// A settlement succeeds only if both calls did. If the venue call fails
/// after the fee was moved, the settlement ends in that failure, so the host,
/// which commits a call's effects only on success, takes the fee transfer
/// back with everything else.
pub proof fn lemma_settlement_is_all_or_nothing(transfer: Result<(), u64>, venue: Result<(), u64>)
    ensures
        settlement_of(transfer, venue) is Ok <==> transfer is Ok && venue is Ok,
        transfer matches Err(code) ==> settlement_of(transfer, venue) == Err::<(), ProxyError>(
            ProxyError::CallFailed(code),
        ),
        transfer is Ok ==> (venue matches Err(code) ==> settlement_of(transfer, venue) == Err::<
            (),
            ProxyError,
        >(ProxyError::CallFailed(code))),
{
}

} // verus!
