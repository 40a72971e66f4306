//! Dispatch by opcode, configuration bootstrap and fee-wallet rotation.

use vstd::prelude::*;
use crate::account::Account;
use crate::error::ProxyError;
use crate::identity::Identity;
use crate::instructions::pump::fee_proxy_outcome;
use crate::instructions::pump::process_pump_amm_buy;
use crate::instructions::pump::process_pump_amm_sell;
use crate::instructions::pump::process_pump_buy;
use crate::instructions::pump::process_pump_sell;
use crate::instructions::pump::FeeProxyPlan;
use crate::instructions::pump::PUMPAMM_BUY_SELECTOR;
use crate::instructions::pump::PUMPAMM_SELL_SELECTOR;
use crate::instructions::pump::PUMPFUN_BUY_SELECTOR;
use crate::instructions::pump::PUMPFUN_SELL_SELECTOR;
use crate::instructions::pump::PUMP_AMM_PROGRAM_ID;
use crate::instructions::pump::PUMP_AMM_SELECTOR;
use crate::instructions::pump::PUMP_AMM_SELL_SELECTOR;
use crate::instructions::pump::PUMP_PROGRAM;
use crate::instructions::pump::PUMP_SELECTOR;
use crate::instructions::pump::PUMP_SELL_SELECTOR;
use crate::record::borsh_read_record;
use crate::record::borsh_write_record;
use crate::record::rate_in_range;
use crate::record::record_bytes;
use crate::record::record_of;
use crate::record::MAX_FEE_RATE;
use crate::record::RECORD_LEN;

verus! {

/// Fee rate and fee wallet, as the administrator writes them. The fee wallet
/// is also the only identity that may rotate it.
#[derive(Clone, Copy, Debug)]
pub struct ProtocolConfig {
    pub protocol_fee_rate: u8,
    pub protocol_fee_wallet: Identity,
}

impl ProtocolConfig {
    /// Whether this value is what the record `data` holds.
    pub open spec fn is_record(self, data: Seq<u8>) -> bool {
        record_of(data) == Some((self.protocol_fee_rate, self.protocol_fee_wallet@))
    }

    /// The 33 bytes of this value's record.
    pub open spec fn bytes(self) -> Seq<u8> {
        record_bytes(self.protocol_fee_rate, self.protocol_fee_wallet@)
    }

    /// Decodes the record. Anything but exactly 33 bytes is rejected.
    pub fn try_from_slice(data: &[u8]) -> (config: Result<ProtocolConfig, ProxyError>)
        ensures
            match config {
                Err(e) => e == ProxyError::MalformedState && record_of(data@) is None,
                Ok(found) => found.is_record(data@),
            },
    {
        match borsh_read_record(data) {
            None => Err(ProxyError::MalformedState),
            Some((rate, wallet)) => Ok(
                ProtocolConfig { protocol_fee_rate: rate, protocol_fee_wallet: Identity::new(wallet) },
            ),
        }
    }

    /// Writes the record over the first 33 bytes of `data`. Data too short to
    /// hold it is rejected and left as it was.
    pub fn serialize(&self, data: &mut Vec<u8>) -> (written: Result<(), ProxyError>)
        ensures
            old(data)@.len() < 33 ==> written == Err::<(), ProxyError>(ProxyError::MalformedState)
                && final(data)@ == old(data)@,
            old(data)@.len() >= 33 ==> written == Ok::<(), ProxyError>(()) && final(data)@
                == self.bytes() + old(data)@.skip(33),
    {
        if data.len() < RECORD_LEN {
            return Err(ProxyError::MalformedState);
        }
        let wallet = self.protocol_fee_wallet.to_bytes();
        if borsh_write_record(self.protocol_fee_rate, &wallet, data) {
            Ok(())
        } else {
            Err(ProxyError::MalformedState)
        }
    }
}

/// Whether `after` is `before` with its stored bytes replaced by `data`.
pub open spec fn rewritten(before: Account, after: Account, data: Seq<u8>) -> bool {
    &&& after.key == before.key
    &&& after.is_signer == before.is_signer
    &&& after.is_writable == before.is_writable
    &&& after.lamports == before.lamports
    &&& after.data@ == data
}

/// Whether `after` is `before` with the stored bytes of the first account
/// replaced by `data` and nothing else changed.
pub open spec fn config_rewritten(before: Seq<Account>, after: Seq<Account>, data: Seq<u8>) -> bool {
    &&& after.len() == before.len()
    &&& before.len() > 0
    &&& rewritten(before[0], after[0], data)
    &&& forall|i: int| 1 <= i < before.len() ==> after[i] == before[i]
}

/// What initialization writes into the configuration account, or why it is refused.
pub open spec fn initialization_of(accounts: Seq<Account>, protocol_fee_rate: u8) -> Result<
    Seq<u8>,
    ProxyError,
> {
    if accounts.len() < 2 {
        Err(ProxyError::NotEnoughAccounts)
    } else if !accounts[1].is_signer {
        Err(ProxyError::MissingAuthorization)
    } else if protocol_fee_rate > 100 {
        Err(ProxyError::MalformedPayload)
    } else if accounts[0].data@.len() < 33 {
        Err(ProxyError::MalformedState)
    } else {
        Ok(record_bytes(protocol_fee_rate, accounts[1].key@) + accounts[0].data@.skip(33))
    }
}

/// Writes a fresh configuration into the first account: the given rate,
/// which must be a percentage of at most 100, and the second account, which
/// must have signed, as fee wallet. Whatever the account held before is
/// overwritten. A refused call leaves the accounts as they were.
pub fn initialize_config_account(accounts: &mut Vec<Account>, protocol_fee_rate: u8) -> (done: Result<
    (),
    ProxyError,
>)
    ensures
        match initialization_of(old(accounts)@, protocol_fee_rate) {
            Err(e) => done == Err::<(), ProxyError>(e) && final(accounts)@ == old(accounts)@,
            Ok(data) => done == Ok::<(), ProxyError>(()) && config_rewritten(
                old(accounts)@,
                final(accounts)@,
                data,
            ),
        },
{
    if accounts.len() < 2 {
        return Err(ProxyError::NotEnoughAccounts);
    }
    if !accounts[1].is_signer {
        return Err(ProxyError::MissingAuthorization);
    }
    if protocol_fee_rate > MAX_FEE_RATE {
        return Err(ProxyError::MalformedPayload);
    }
    if accounts[0].data.len() < RECORD_LEN {
        return Err(ProxyError::MalformedState);
    }
    let config = ProtocolConfig {
        protocol_fee_rate,
        protocol_fee_wallet: accounts[1].key,
    };
    config.serialize(&mut accounts[0].data)
}

/// What a rotation writes into the configuration account, or why it is
/// refused. Only the current fee wallet, signing, may name its successor.
pub open spec fn rotation_of(accounts: Seq<Account>, instruction_data: Seq<u8>) -> Result<
    Seq<u8>,
    ProxyError,
> {
    if instruction_data.len() < 32 {
        Err(ProxyError::MalformedPayload)
    } else if accounts.len() < 2 {
        Err(ProxyError::NotEnoughAccounts)
    } else if !accounts[1].is_signer {
        Err(ProxyError::MissingAuthorization)
    } else {
        match record_of(accounts[0].data@) {
            None => Err(ProxyError::MalformedState),
            Some((fee_rate, fee_wallet)) => if accounts[1].key@ != fee_wallet {
                Err(ProxyError::AuthorizationDenied)
            } else {
                Ok(record_bytes(fee_rate, instruction_data.take(32)))
            },
        }
    }
}

/// Replaces the fee wallet in the first account's record by the identity in
/// the first 32 bytes of the payload. The second account must have signed and
/// must be the current fee wallet. The fee rate stays.
pub fn set_protocol_fee_wallet(accounts: &mut Vec<Account>, instruction_data: &[u8]) -> (done: Result<
    (),
    ProxyError,
>)
    ensures
        match rotation_of(old(accounts)@, instruction_data@) {
            Err(e) => done == Err::<(), ProxyError>(e) && final(accounts)@ == old(accounts)@,
            Ok(data) => done == Ok::<(), ProxyError>(()) && config_rewritten(
                old(accounts)@,
                final(accounts)@,
                data,
            ),
        },
{
    let new_wallet = match Identity::from_prefix(instruction_data) {
        None => { return Err(ProxyError::MalformedPayload); },
        Some(wallet) => wallet,
    };
    if accounts.len() < 2 {
        return Err(ProxyError::NotEnoughAccounts);
    }
    if !accounts[1].is_signer {
        return Err(ProxyError::MissingAuthorization);
    }
    let mut config = match ProtocolConfig::try_from_slice(accounts[0].data.as_slice()) {
        Err(e) => { return Err(e); },
        Ok(config) => config,
    };
    if accounts[1].key != config.protocol_fee_wallet {
        proof {
            Identity::lemma_view_injective(accounts[1].key, config.protocol_fee_wallet);
        }
        return Err(ProxyError::AuthorizationDenied);
    }
    config.protocol_fee_wallet = new_wallet;
    let ghost before = accounts[0].data@;
    let done = config.serialize(&mut accounts[0].data);
    proof {
        assert(before.skip(33) =~= Seq::<u8>::empty());
        assert(config.bytes() + before.skip(33) =~= config.bytes());
    }
    done
}

/// Rotation hands the authority over. It succeeds only for a signer whose
/// identity is the fee wallet on record. Once it has succeeded, a further
/// rotation on the rewritten configuration account succeeds for the new
/// wallet and is denied to every other signer, the previous wallet included
/// unless it was named its own successor.
pub proof fn lemma_rotation_hands_over_authority(
    before: Seq<Account>,
    first: Seq<u8>,
    after: Seq<Account>,
    later: Seq<Account>,
    second: Seq<u8>,
)
    requires
        rotation_of(before, first) is Ok,
        config_rewritten(before, after, rotation_of(before, first)->Ok_0),
        later.len() >= 2,
        later[0] == after[0],
        later[1].is_signer,
        second.len() >= 32,
    ensures
        before[1].is_signer,
        record_of(before[0].data@) matches Some((fee_rate, fee_wallet)) && before[1].key@
            == fee_wallet && record_of(after[0].data@) == Some((fee_rate, first.take(32))),
        later[1].key@ == first.take(32) ==> rotation_of(later, second) is Ok,
        later[1].key@ != first.take(32) ==> rotation_of(later, second) == Err::<
            Seq<u8>,
            ProxyError,
        >(ProxyError::AuthorizationDenied),
{
    let written = rotation_of(before, first)->Ok_0;
    assert(written.subrange(1, 33) =~= first.take(32));
}

/// No stored rate exceeds 100: every record that an initialization writes
/// has a rate of at most 100, on a 33-byte account it is a record in range,
/// and a rotation keeps the rate it finds.
pub proof fn lemma_rate_bound_is_kept(
    accounts: Seq<Account>,
    protocol_fee_rate: u8,
    instruction_data: Seq<u8>,
)
    ensures
        initialization_of(accounts, protocol_fee_rate) matches Ok(data) ==> data[0] <= 100
            && data[0] == protocol_fee_rate && (accounts[0].data@.len() == 33 ==> rate_in_range(
            data,
        )),
        protocol_fee_rate > 100 ==> initialization_of(accounts, protocol_fee_rate) is Err,
        rotation_of(accounts, instruction_data) matches Ok(data) ==> data.len() == 33 && data[0]
            == accounts[0].data@[0] && (rate_in_range(data) <==> rate_in_range(accounts[0].data@)),
{
}

/// Opcode of the configuration bootstrap: the bytes of `init_cfg`.
pub const INITIALIZE_CONFIG_SELECTOR: [u8; 8] = [105, 110, 105, 116, 95, 99, 102, 103];

/// Opcode of the fee-wallet rotation: the bytes of `set_fee` and a zero byte.
pub const SET_PROTOCOL_FEE_WALLET_SELECTOR: [u8; 8] = [115, 101, 116, 95, 102, 101, 101, 0];

/// Length of the opcode in front of every call's payload.
pub const OPCODE_LEN: usize = 8;

/// The operations that a call can select.
#[derive(Clone, Copy, Debug, PartialEq, Eq, Structural)]
pub enum Operation {
    PumpBuy,
    PumpAmmBuy,
    PumpSell,
    PumpAmmSell,
    InitializeConfig,
    SetProtocolFeeWallet,
}

impl Operation {
    /// The opcode that selects this operation.
    pub open spec fn opcode(self) -> Seq<u8> {
        match self {
            Operation::PumpBuy => PUMP_SELECTOR@,
            Operation::PumpAmmBuy => PUMP_AMM_SELECTOR@,
            Operation::PumpSell => PUMP_SELL_SELECTOR@,
            Operation::PumpAmmSell => PUMP_AMM_SELL_SELECTOR@,
            Operation::InitializeConfig => INITIALIZE_CONFIG_SELECTOR@,
            Operation::SetProtocolFeeWallet => SET_PROTOCOL_FEE_WALLET_SELECTOR@,
        }
    }

    /// The program that a trade operation forwards to; none for an
    /// operation on the configuration.
    pub open spec fn venue(self) -> Option<Identity> {
        match self {
            Operation::PumpBuy => Some(Identity { bytes: PUMP_PROGRAM }),
            Operation::PumpAmmBuy => Some(Identity { bytes: PUMP_AMM_PROGRAM_ID }),
            Operation::PumpSell => Some(Identity { bytes: PUMP_PROGRAM }),
            Operation::PumpAmmSell => Some(Identity { bytes: PUMP_AMM_PROGRAM_ID }),
            Operation::InitializeConfig => None,
            Operation::SetProtocolFeeWallet => None,
        }
    }

    /// The selector under which the venue knows a trade operation; none for
    /// an operation on the configuration.
    pub open spec fn venue_selector(self) -> Option<Seq<u8>> {
        match self {
            Operation::PumpBuy => Some(PUMPFUN_BUY_SELECTOR@),
            Operation::PumpAmmBuy => Some(PUMPAMM_BUY_SELECTOR@),
            Operation::PumpSell => Some(PUMPFUN_SELL_SELECTOR@),
            Operation::PumpAmmSell => Some(PUMPAMM_SELL_SELECTOR@),
            Operation::InitializeConfig => None,
            Operation::SetProtocolFeeWallet => None,
        }
    }
}

/// The operation that `opcode` selects: the first of the table whose opcode
/// equals it byte for byte.
pub open spec fn operation_of(opcode: Seq<u8>) -> Option<Operation> {
    if opcode == PUMP_SELECTOR@ {
        Some(Operation::PumpBuy)
    } else if opcode == PUMP_AMM_SELECTOR@ {
        Some(Operation::PumpAmmBuy)
    } else if opcode == PUMP_SELL_SELECTOR@ {
        Some(Operation::PumpSell)
    } else if opcode == PUMP_AMM_SELL_SELECTOR@ {
        Some(Operation::PumpAmmSell)
    } else if opcode == INITIALIZE_CONFIG_SELECTOR@ {
        Some(Operation::InitializeConfig)
    } else if opcode == SET_PROTOCOL_FEE_WALLET_SELECTOR@ {
        Some(Operation::SetProtocolFeeWallet)
    } else {
        None
    }
}

/// No two operations share an opcode, so the order of the table decides
/// nothing: an opcode selects an operation exactly when it is that
/// operation's own.
pub proof fn lemma_opcodes_are_distinct(a: Operation, b: Operation, opcode: Seq<u8>)
    ensures
        a.opcode() == b.opcode() ==> a == b,
        a.opcode().len() == 8,
        operation_of(opcode) == Some(a) <==> opcode == a.opcode(),
{
    let p = PUMP_SELECTOR@;
    let q = PUMP_AMM_SELECTOR@;
    let r = PUMP_SELL_SELECTOR@;
    let t = PUMP_AMM_SELL_SELECTOR@;
    let u = SET_PROTOCOL_FEE_WALLET_SELECTOR@;
    let v = INITIALIZE_CONFIG_SELECTOR@;
    assert(p[0] == 82 && q[0] == 129 && r[0] == 83 && t[0] == 130 && u[0] == 115 && v[0] == 105);
}

/// Whether `bytes` are exactly the eight bytes of `opcode`.
fn is_opcode(bytes: &[u8], opcode: &[u8; 8]) -> (same: bool)
    ensures
        same == (bytes@ == opcode@),
{
    if bytes.len() != 8 {
        return false;
    }
    let mut i: usize = 0;
    while i < 8
        invariant
            i <= 8,
            bytes@.len() == 8,
            forall|j: int| 0 <= j < i ==> bytes@[j] == opcode@[j],
        decreases 8 - i,
    {
        if bytes[i] != opcode[i] {
            return false;
        }
        i += 1;
    }
    assert(bytes@ =~= opcode@);
    true
}

/// Looks an opcode up in the table.
pub fn select_operation(opcode: &[u8]) -> (operation: Option<Operation>)
    ensures
        operation == operation_of(opcode@),
{
    if is_opcode(opcode, &PUMP_SELECTOR) {
        Some(Operation::PumpBuy)
    } else if is_opcode(opcode, &PUMP_AMM_SELECTOR) {
        Some(Operation::PumpAmmBuy)
    } else if is_opcode(opcode, &PUMP_SELL_SELECTOR) {
        Some(Operation::PumpSell)
    } else if is_opcode(opcode, &PUMP_AMM_SELL_SELECTOR) {
        Some(Operation::PumpAmmSell)
    } else if is_opcode(opcode, &INITIALIZE_CONFIG_SELECTOR) {
        Some(Operation::InitializeConfig)
    } else if is_opcode(opcode, &SET_PROTOCOL_FEE_WALLET_SELECTOR) {
        Some(Operation::SetProtocolFeeWallet)
    } else {
        None
    }
}

/// What a call that was accepted has done or asks for.
#[derive(Clone, Debug)]
pub enum Handled {
    /// A trade was accepted: the host is to carry out the plan.
    Trade(FeeProxyPlan),
    /// The configuration account was rewritten; nothing is left to do.
    ConfigWritten,
}

/// Whether `outcome` is what the trade `trade` must give on these accounts
/// and this payload: what its venue and selector give in the fee proxy.
pub open spec fn trade_outcome(
    outcome: Result<Handled, ProxyError>,
    trade: Operation,
    accounts: Seq<Account>,
    rest: Seq<u8>,
) -> bool {
    &&& trade.venue() matches Some(venue)
    &&& trade.venue_selector() matches Some(selector)
    &&& match outcome {
        Ok(Handled::Trade(plan)) => fee_proxy_outcome(Ok(plan), venue, accounts, rest, selector),
        Ok(Handled::ConfigWritten) => false,
        Err(e) => fee_proxy_outcome(Err(e), venue, accounts, rest, selector),
    }
}

/// Whether `outcome` and the accounts `after` are what a configuration call
/// must give: the error and untouched accounts, or the record written.
pub open spec fn config_outcome(
    outcome: Result<Handled, ProxyError>,
    decided: Result<Seq<u8>, ProxyError>,
    before: Seq<Account>,
    after: Seq<Account>,
) -> bool {
    match decided {
        Err(e) => outcome == Err::<Handled, ProxyError>(e) && after == before,
        Ok(data) => outcome matches Ok(Handled::ConfigWritten) && config_rewritten(
            before,
            after,
            data,
        ),
    }
}

/// Whether `outcome` and the accounts `after` are what a call with payload
/// `instruction_data` on the accounts `before` must give: the handler of the
/// operation that the first eight bytes select is applied to the rest of the
/// payload, and only the configuration operations touch the accounts. The
/// bootstrap takes its rate from the first byte of the rest.
pub open spec fn dispatch_outcome(
    outcome: Result<Handled, ProxyError>,
    before: Seq<Account>,
    after: Seq<Account>,
    instruction_data: Seq<u8>,
) -> bool {
    if instruction_data.len() < 8 {
        outcome == Err::<Handled, ProxyError>(ProxyError::MalformedPayload) && after == before
    } else {
        let rest = instruction_data.skip(8);
        match operation_of(instruction_data.take(8)) {
            None => outcome == Err::<Handled, ProxyError>(ProxyError::UnknownOperation) && after
                == before,
            Some(Operation::InitializeConfig) => if rest.len() < 1 {
                outcome == Err::<Handled, ProxyError>(ProxyError::MalformedPayload) && after
                    == before
            } else {
                config_outcome(outcome, initialization_of(before, rest[0]), before, after)
            },
            Some(Operation::SetProtocolFeeWallet) => config_outcome(
                outcome,
                rotation_of(before, rest),
                before,
                after,
            ),
            Some(Operation::PumpBuy) => after == before && trade_outcome(
                outcome,
                Operation::PumpBuy,
                before,
                rest,
            ),
            Some(Operation::PumpAmmBuy) => after == before && trade_outcome(
                outcome,
                Operation::PumpAmmBuy,
                before,
                rest,
            ),
            Some(Operation::PumpSell) => after == before && trade_outcome(
                outcome,
                Operation::PumpSell,
                before,
                rest,
            ),
            Some(Operation::PumpAmmSell) => after == before && trade_outcome(
                outcome,
                Operation::PumpAmmSell,
                before,
                rest,
            ),
        }
    }
}

/// The entry point of every call: selects the operation by the first eight
/// bytes of the payload and hands the accounts and the remaining bytes to
/// its handler.
pub fn process_instruction(
    _program_id: &Identity,
    accounts: &mut Vec<Account>,
    instruction_data: &[u8],
) -> (outcome: Result<Handled, ProxyError>)
    ensures
        dispatch_outcome(outcome, old(accounts)@, final(accounts)@, instruction_data@),
{
    if instruction_data.len() < OPCODE_LEN {
        return Err(ProxyError::MalformedPayload);
    }
    let (method, rest) = instruction_data.split_at(OPCODE_LEN);
    proof {
        assert(method@ =~= instruction_data@.take(8));
        assert(rest@ =~= instruction_data@.skip(8));
    }
    let trade = match select_operation(method) {
        None => { return Err(ProxyError::UnknownOperation); },
        Some(Operation::InitializeConfig) => {
            if rest.len() < 1 {
                return Err(ProxyError::MalformedPayload);
            }
            return match initialize_config_account(accounts, rest[0]) {
                Err(e) => Err(e),
                Ok(_) => Ok(Handled::ConfigWritten),
            };
        },
        Some(Operation::SetProtocolFeeWallet) => {
            return match set_protocol_fee_wallet(accounts, rest) {
                Err(e) => Err(e),
                Ok(_) => Ok(Handled::ConfigWritten),
            };
        },
        Some(Operation::PumpBuy) => process_pump_buy(accounts.as_slice(), rest),
        Some(Operation::PumpAmmBuy) => process_pump_amm_buy(accounts.as_slice(), rest),
        Some(Operation::PumpSell) => process_pump_sell(accounts.as_slice(), rest),
        Some(Operation::PumpAmmSell) => process_pump_amm_sell(accounts.as_slice(), rest),
    };
    match trade {
        Err(e) => Err(e),
        Ok(plan) => Ok(Handled::Trade(plan)),
    }
}

} // verus!
