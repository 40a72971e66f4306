use dex::account::Account;
use dex::error::ProxyError;
use dex::identity::Identity;
use dex::processor::{
    initialize_config_account, process_instruction, select_operation, set_protocol_fee_wallet,
    Handled, Operation, ProtocolConfig,
};

fn id(byte: u8) -> Identity {
    Identity::new([byte; 32])
}

fn account(key: Identity, is_signer: bool, lamports: u64, data: Vec<u8>) -> Account {
    Account { key, is_signer, is_writable: true, lamports, data }
}

fn same(a: &[Account], b: &[Account]) -> bool {
    a.len() == b.len()
        && a.iter().zip(b.iter()).all(|(x, y)| {
            x.key == y.key
                && x.is_signer == y.is_signer
                && x.is_writable == y.is_writable
                && x.lamports == y.lamports
                && x.data == y.data
        })
}

fn admin_accounts(config: Vec<u8>, admin: Identity, signed: bool) -> Vec<Account> {
    vec![account(id(1), false, 10, config), account(admin, signed, 20, vec![4, 5])]
}

fn record(rate: u8, wallet: Identity) -> Vec<u8> {
    let mut data = vec![rate];
    data.extend_from_slice(&wallet.to_bytes());
    data
}

#[test]
fn initialize_writes_rate_and_admin() {
    let mut accounts = admin_accounts(vec![0xff; 33], id(7), true);
    assert_eq!(initialize_config_account(&mut accounts, 5), Ok(()));
    assert_eq!(accounts[0].data, record(5, id(7)));
    assert_eq!(accounts[0].data, borsh::to_vec(&(5u8, [7u8; 32])).unwrap());
    assert_eq!(accounts[0].lamports, 10);
    assert_eq!(accounts[1].data, vec![4, 5]);
    let config = ProtocolConfig::try_from_slice(&accounts[0].data).unwrap();
    assert_eq!(config.protocol_fee_rate, 5);
    assert_eq!(config.protocol_fee_wallet, id(7));
}

#[test]
fn initialize_overwrites_an_earlier_record() {
    let mut accounts = admin_accounts(record(5, id(7)), id(8), true);
    assert_eq!(initialize_config_account(&mut accounts, 100), Ok(()));
    assert_eq!(accounts[0].data, record(100, id(8)));
    assert_eq!(initialize_config_account(&mut accounts, 0), Ok(()));
    assert_eq!(accounts[0].data, record(0, id(8)));
}

#[test]
fn initialize_refuses_a_rate_above_one_hundred() {
    for rate in [101u8, 200, 255] {
        let mut accounts = admin_accounts(record(5, id(7)), id(8), true);
        let before = accounts.clone();
        assert_eq!(initialize_config_account(&mut accounts, rate), Err(ProxyError::MalformedPayload));
        assert!(same(&accounts, &before));
    }
    // the signature is looked at first, the room for the record last
    let mut accounts = admin_accounts(record(5, id(7)), id(8), false);
    assert_eq!(initialize_config_account(&mut accounts, 101), Err(ProxyError::MissingAuthorization));
    let mut accounts = admin_accounts(vec![0; 3], id(8), true);
    assert_eq!(initialize_config_account(&mut accounts, 101), Err(ProxyError::MalformedPayload));
}

#[test]
fn initialize_keeps_bytes_behind_the_record() {
    let mut data = vec![0xaa; 33];
    data.extend_from_slice(&[1, 2, 3]);
    let mut accounts = admin_accounts(data, id(7), true);
    assert_eq!(initialize_config_account(&mut accounts, 5), Ok(()));
    let mut expected = record(5, id(7));
    expected.extend_from_slice(&[1, 2, 3]);
    assert_eq!(accounts[0].data, expected);
}

#[test]
fn initialize_needs_room_a_signer_and_two_accounts() {
    let mut accounts = admin_accounts(vec![0xaa; 32], id(7), true);
    let before = accounts.clone();
    assert_eq!(initialize_config_account(&mut accounts, 5), Err(ProxyError::MalformedState));
    assert!(same(&accounts, &before));

    let mut accounts = admin_accounts(vec![0xaa; 33], id(7), false);
    let before = accounts.clone();
    assert_eq!(initialize_config_account(&mut accounts, 5), Err(ProxyError::MissingAuthorization));
    assert!(same(&accounts, &before));

    let mut accounts = vec![account(id(1), true, 0, vec![0; 33])];
    assert_eq!(initialize_config_account(&mut accounts, 5), Err(ProxyError::NotEnoughAccounts));
    let mut none: Vec<Account> = Vec::new();
    assert_eq!(initialize_config_account(&mut none, 5), Err(ProxyError::NotEnoughAccounts));
}

#[test]
fn rotation_by_the_current_wallet() {
    let mut accounts = admin_accounts(record(5, id(7)), id(7), true);
    assert_eq!(set_protocol_fee_wallet(&mut accounts, &[8; 32]), Ok(()));
    assert_eq!(accounts[0].data, record(5, id(8)));
    assert_eq!(accounts[0].key, id(1));
    assert_eq!(accounts[1].data, vec![4, 5]);
}

#[test]
fn rotation_reads_only_the_first_32_bytes() {
    let mut payload = vec![8u8; 32];
    payload.extend_from_slice(&[1, 2, 3]);
    let mut accounts = admin_accounts(record(5, id(7)), id(7), true);
    assert_eq!(set_protocol_fee_wallet(&mut accounts, &payload), Ok(()));
    assert_eq!(accounts[0].data, record(5, id(8)));
}

#[test]
fn rotation_hands_over_authority() {
    let mut accounts = admin_accounts(record(5, id(7)), id(7), true);
    assert_eq!(set_protocol_fee_wallet(&mut accounts, &[8; 32]), Ok(()));
    // the previous wallet is now denied
    assert_eq!(set_protocol_fee_wallet(&mut accounts, &[7; 32]), Err(ProxyError::AuthorizationDenied));
    assert_eq!(accounts[0].data, record(5, id(8)));
    // the new wallet may rotate again
    accounts[1].key = id(8);
    assert_eq!(set_protocol_fee_wallet(&mut accounts, &[9; 32]), Ok(()));
    assert_eq!(accounts[0].data, record(5, id(9)));
}

#[test]
fn rotation_after_initialization() {
    let mut accounts = admin_accounts(vec![0; 33], id(7), true);
    assert_eq!(initialize_config_account(&mut accounts, 3), Ok(()));
    assert_eq!(set_protocol_fee_wallet(&mut accounts, &[8; 32]), Ok(()));
    assert_eq!(accounts[0].data, record(3, id(8)));
}

#[test]
fn rotation_refusals_leave_the_accounts_alone() {
    let cases: Vec<(Vec<Account>, Vec<u8>, ProxyError)> = vec![
        (admin_accounts(record(5, id(7)), id(7), true), vec![8; 31], ProxyError::MalformedPayload),
        (admin_accounts(record(5, id(7)), id(7), false), vec![8; 32], ProxyError::MissingAuthorization),
        (admin_accounts(vec![5; 32], id(7), true), vec![8; 32], ProxyError::MalformedState),
        (admin_accounts(vec![5; 34], id(5), true), vec![8; 32], ProxyError::MalformedState),
        (admin_accounts(record(5, id(7)), id(6), true), vec![8; 32], ProxyError::AuthorizationDenied),
        (vec![account(id(1), true, 0, record(5, id(1)))], vec![8; 32], ProxyError::NotEnoughAccounts),
        (vec![], vec![8; 3], ProxyError::MalformedPayload),
    ];
    for (mut accounts, payload, expected) in cases {
        let before = accounts.clone();
        assert_eq!(set_protocol_fee_wallet(&mut accounts, &payload), Err(expected));
        assert!(same(&accounts, &before));
    }
}

#[test]
fn serialize_needs_33_bytes() {
    let config = ProtocolConfig { protocol_fee_rate: 9, protocol_fee_wallet: id(4) };
    let mut short = vec![1u8; 10];
    assert_eq!(config.serialize(&mut short), Err(ProxyError::MalformedState));
    assert_eq!(short, vec![1u8; 10]);
    let mut exact = vec![0u8; 33];
    assert_eq!(config.serialize(&mut exact), Ok(()));
    assert_eq!(exact, record(9, id(4)));
}

#[test]
fn opcodes_select_their_operations() {
    assert_eq!(select_operation(&[82, 225, 119, 231, 78, 29, 45, 70]), Some(Operation::PumpBuy));
    assert_eq!(select_operation(&[129, 59, 179, 195, 110, 135, 61, 2]), Some(Operation::PumpAmmBuy));
    assert_eq!(select_operation(&[83, 225, 119, 231, 78, 29, 45, 70]), Some(Operation::PumpSell));
    assert_eq!(select_operation(&[130, 59, 179, 195, 110, 135, 61, 2]), Some(Operation::PumpAmmSell));
    assert_eq!(select_operation(b"set_fee\0"), Some(Operation::SetProtocolFeeWallet));
    assert_eq!(select_operation(b"init_cfg"), Some(Operation::InitializeConfig));
    assert_eq!(
        select_operation(&[105, 110, 105, 116, 95, 99, 102, 103]),
        Some(Operation::InitializeConfig)
    );
    assert_eq!(select_operation(b"set_fee"), None);
    assert_eq!(select_operation(b"set_fee\0\0"), None);
    assert_eq!(select_operation(&[102, 6, 61, 18, 1, 218, 235, 234]), None);
}

#[test]
fn unknown_opcode_touches_nothing() {
    let mut accounts = admin_accounts(record(5, id(7)), id(7), true);
    let before = accounts.clone();
    let mut payload = vec![1, 2, 3, 4, 5, 6, 7, 8];
    payload.extend_from_slice(&[8; 32]);
    let outcome = process_instruction(&id(0), &mut accounts, &payload);
    assert_eq!(outcome.err(), Some(ProxyError::UnknownOperation));
    assert!(same(&accounts, &before));
}

#[test]
fn payload_without_opcode_is_malformed() {
    let mut accounts = admin_accounts(record(5, id(7)), id(7), true);
    let outcome = process_instruction(&id(0), &mut accounts, b"set_fee");
    assert_eq!(outcome.err(), Some(ProxyError::MalformedPayload));
}

#[test]
fn dispatch_of_a_rotation() {
    let mut accounts = admin_accounts(record(5, id(7)), id(7), true);
    let mut payload = b"set_fee\0".to_vec();
    payload.extend_from_slice(&[8; 32]);
    let outcome = process_instruction(&id(0), &mut accounts, &payload).unwrap();
    assert!(matches!(outcome, Handled::ConfigWritten));
    assert_eq!(accounts[0].data, record(5, id(8)));
    let outcome = process_instruction(&id(0), &mut accounts, b"set_fee\0");
    assert_eq!(outcome.err(), Some(ProxyError::MalformedPayload));
}

#[test]
fn dispatch_of_an_initialization() {
    let mut accounts = admin_accounts(vec![0xff; 33], id(7), true);
    let mut expected = admin_accounts(vec![0xff; 33], id(7), true);
    assert_eq!(initialize_config_account(&mut expected, 5), Ok(()));
    let mut payload = b"init_cfg".to_vec();
    payload.push(5);
    let outcome = process_instruction(&id(0), &mut accounts, &payload).unwrap();
    assert!(matches!(outcome, Handled::ConfigWritten));
    assert_eq!(accounts[0].data, record(5, id(7)));
    assert!(same(&accounts, &expected));
    // bytes behind the rate are not read
    payload.extend_from_slice(&[200, 1, 2]);
    let outcome = process_instruction(&id(0), &mut accounts, &payload).unwrap();
    assert!(matches!(outcome, Handled::ConfigWritten));
    assert_eq!(accounts[0].data, record(5, id(7)));
}

#[test]
fn dispatch_of_a_refused_initialization() {
    let cases: Vec<(Vec<Account>, Vec<u8>, ProxyError)> = vec![
        (admin_accounts(vec![0; 33], id(7), true), vec![], ProxyError::MalformedPayload),
        (admin_accounts(vec![0; 33], id(7), true), vec![101], ProxyError::MalformedPayload),
        (admin_accounts(vec![0; 33], id(7), false), vec![5], ProxyError::MissingAuthorization),
        (admin_accounts(vec![0; 32], id(7), true), vec![5], ProxyError::MalformedState),
        (vec![account(id(1), true, 0, vec![0; 33])], vec![5], ProxyError::NotEnoughAccounts),
    ];
    for (mut accounts, rest, expected) in cases {
        let before = accounts.clone();
        let mut payload = b"init_cfg".to_vec();
        payload.extend_from_slice(&rest);
        let outcome = process_instruction(&id(0), &mut accounts, &payload);
        assert_eq!(outcome.err(), Some(expected));
        assert!(same(&accounts, &before));
    }
}

#[test]
fn dispatch_of_a_trade() {
    let mut accounts = vec![
        account(id(1), false, 0, record(5, id(9))),
        account(Identity::new([0; 32]), false, 1, vec![]),
        account(id(2), true, 60_000, vec![]),
        account(id(9), false, 5, vec![]),
        account(id(20), false, 0, vec![]),
    ];
    let before = accounts.clone();
    let mut payload = vec![83, 225, 119, 231, 78, 29, 45, 70];
    payload.extend_from_slice(&1_000_000u64.to_le_bytes());
    payload.extend_from_slice(&[0; 16]);
    let outcome = process_instruction(&id(0), &mut accounts, &payload).unwrap();
    assert!(same(&accounts, &before));
    match outcome {
        Handled::Trade(plan) => {
            assert_eq!(plan.fee, 50_000);
            assert_eq!(plan.remaining, 950_000);
            assert_eq!(&plan.forward.data[..8], &[51, 230, 133, 164, 1, 127, 131, 173]);
            assert_eq!(&plan.forward.data[8..16], &950_000u64.to_le_bytes());
            assert_eq!(plan.forward.data.len(), 24);
            assert_eq!(plan.forward.accounts.len(), 1);
        }
        Handled::ConfigWritten => panic!("a trade writes no configuration"),
    }
    accounts[2].lamports = 40_000;
    let outcome = process_instruction(&id(0), &mut accounts, &payload);
    assert_eq!(outcome.err(), Some(ProxyError::InsufficientFunds));
}
