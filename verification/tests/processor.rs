use escrow::account::AccountInfo;
use escrow::error::ProgramError;
use escrow::processor::{Invocation, Processor};
use escrow::pubkey::Pubkey;
use escrow::rent::{RENT_SYSVAR_ID, UNIT_THRESHOLD};
use escrow::state::Escrow;
use escrow::token::{AccountMeta, TOKEN_PROGRAM_ID};

const MINIMUM_BALANCE: u64 = 1_621_680;

fn key(byte: u8) -> Pubkey {
    Pubkey::new_from_array([byte; 32])
}

fn token_program() -> Pubkey {
    Pubkey::new_from_array(TOKEN_PROGRAM_ID)
}

fn rent_data() -> Vec<u8> {
    let mut data = 6960u64.to_le_bytes().to_vec();
    data.extend_from_slice(&UNIT_THRESHOLD);
    data.push(50);
    data
}

fn program_id() -> Pubkey {
    key(77)
}

/// Initializer I = 10, temporary token account T = 11, receiving account
/// R = 12, escrow record account E = 13.
fn valid_accounts() -> Vec<AccountInfo> {
    vec![
        AccountInfo::new(key(10), true, 5, vec![], key(0)),
        AccountInfo::new(key(11), false, 5, vec![0u8; 165], token_program()),
        AccountInfo::new(key(12), false, 5, vec![0u8; 165], token_program()),
        AccountInfo::new(key(13), false, MINIMUM_BALANCE, vec![0u8; 105], program_id()),
        AccountInfo::new(Pubkey::new_from_array(RENT_SYSVAR_ID), false, 1, rent_data(), key(0)),
        AccountInfo::new(token_program(), false, 1, vec![], key(0)),
    ]
}

fn init_payload(amount: u64) -> Vec<u8> {
    let mut payload = vec![0u8];
    payload.extend_from_slice(&amount.to_le_bytes());
    payload
}

fn fails_untouched(accounts: Vec<AccountInfo>, expected: ProgramError) {
    let mut given = accounts.clone();
    assert_eq!(Processor::process_init_escrow(&mut given, 500, &program_id()), Err(expected));
    assert_eq!(given, accounts);
    let mut given = accounts.clone();
    assert_eq!(Processor::process(&program_id(), &mut given, &init_payload(500)), Err(expected));
    assert_eq!(given, accounts);
}

fn expected_invocation() -> Invocation {
    let (authority, _) = solana_program::pubkey::Pubkey::find_program_address(
        &[b"escrow"],
        &solana_program::pubkey::Pubkey::new_from_array(program_id().to_bytes()),
    );
    let mut data = vec![6u8, 2, 1];
    data.extend_from_slice(&authority.to_bytes());
    Invocation {
        instruction: escrow::token::Instruction {
            program_id: token_program(),
            accounts: vec![
                AccountMeta { pubkey: key(11), is_signer: false, is_writable: true },
                AccountMeta { pubkey: key(10), is_signer: false, is_writable: false },
                AccountMeta { pubkey: key(10), is_signer: true, is_writable: false },
            ],
            data,
        },
        accounts: vec![1, 0, 5],
    }
}

#[test]
fn init_escrow_scenario_succeeds() {
    let mut accounts = valid_accounts();
    let invocation = Processor::process(&program_id(), &mut accounts, &init_payload(500)).unwrap();
    assert_eq!(invocation, expected_invocation());
    let record = Escrow::unpack_unchecked(&accounts[3].data).unwrap();
    assert_eq!(
        record,
        Escrow {
            is_initialized: true,
            initializer_pubkey: key(10),
            temp_token_account_pubkey: key(11),
            initializer_token_to_receive_account_pubkey: key(12),
            expected_amount: 500,
        }
    );
    let mut expected = valid_accounts();
    let mut bytes = vec![1u8];
    bytes.extend_from_slice(&[10u8; 32]);
    bytes.extend_from_slice(&[11u8; 32]);
    bytes.extend_from_slice(&[12u8; 32]);
    bytes.extend_from_slice(&[244, 1, 0, 0, 0, 0, 0, 0]);
    expected[3].data = bytes;
    assert_eq!(accounts, expected);
}

#[test]
fn init_escrow_new_authority_is_derived_not_the_initializer() {
    let mut accounts = valid_accounts();
    let invocation = Processor::process_init_escrow(&mut accounts, 500, &program_id()).unwrap();
    let (authority, _) = Processor::authority(&program_id()).unwrap();
    assert_eq!(invocation.instruction.data[3..], authority.to_bytes());
    assert_ne!(authority, key(10));
}

#[test]
fn init_escrow_already_initialized_fails_without_mutation() {
    let mut accounts = valid_accounts();
    accounts[3].data[0] = 1;
    fails_untouched(accounts, ProgramError::AccountAlreadyInitialized);
}

#[test]
fn init_escrow_twice_in_sequence_fails_the_second_time() {
    let mut accounts = valid_accounts();
    assert!(Processor::process(&program_id(), &mut accounts, &init_payload(500)).is_ok());
    let after_first = accounts.clone();
    assert_eq!(
        Processor::process(&program_id(), &mut accounts, &init_payload(9)),
        Err(ProgramError::AccountAlreadyInitialized)
    );
    assert_eq!(accounts, after_first);
    assert_eq!(
        Processor::process(&key(1), &mut accounts, &init_payload(500)),
        Err(ProgramError::AccountAlreadyInitialized)
    );
    assert_eq!(accounts, after_first);
}

#[test]
fn init_escrow_needs_the_initializers_signature() {
    let mut accounts = valid_accounts();
    accounts[0].is_signer = false;
    fails_untouched(accounts, ProgramError::MissingRequiredSignature);
}

#[test]
fn init_escrow_needs_a_receiving_account_of_the_token_program() {
    let mut accounts = valid_accounts();
    accounts[2].owner = key(99);
    fails_untouched(accounts, ProgramError::IncorrectProgramId);
}

#[test]
fn init_escrow_needs_a_rent_exempt_record_account() {
    let mut accounts = valid_accounts();
    accounts[3].lamports = MINIMUM_BALANCE - 1;
    fails_untouched(accounts, ProgramError::Custom(1));
}

#[test]
fn init_escrow_needs_the_rent_sysvar() {
    let mut accounts = valid_accounts();
    accounts[4].key = key(4);
    fails_untouched(accounts, ProgramError::InvalidArgument);
    let mut accounts = valid_accounts();
    accounts[4].data.truncate(16);
    fails_untouched(accounts, ProgramError::InvalidArgument);
}

#[test]
fn init_escrow_needs_a_record_account_that_decodes() {
    let mut accounts = valid_accounts();
    accounts[3].data[0] = 2;
    fails_untouched(accounts, ProgramError::InvalidAccountData);
    let mut accounts = valid_accounts();
    accounts[3].data = vec![0u8; 104];
    fails_untouched(accounts, ProgramError::InvalidAccountData);
    let mut accounts = valid_accounts();
    accounts[3].data = vec![0u8; 106];
    accounts[3].lamports = MINIMUM_BALANCE + 6960;
    fails_untouched(accounts, ProgramError::InvalidAccountData);
    let mut accounts = valid_accounts();
    accounts[3].data = vec![0u8; 106];
    fails_untouched(accounts, ProgramError::Custom(1));
}

#[test]
fn init_escrow_needs_the_token_program() {
    let mut accounts = valid_accounts();
    accounts[5].key = key(5);
    fails_untouched(accounts, ProgramError::IncorrectProgramId);
}

#[test]
fn init_escrow_needs_all_six_accounts() {
    for len in 0..6 {
        let mut accounts = valid_accounts();
        accounts.truncate(len);
        fails_untouched(accounts, ProgramError::NotEnoughAccountKeys);
    }
}

#[test]
fn init_escrow_reports_the_first_failing_check() {
    let mut accounts = valid_accounts();
    accounts[0].is_signer = false;
    accounts.truncate(1);
    fails_untouched(accounts, ProgramError::MissingRequiredSignature);

    let mut accounts = valid_accounts();
    accounts[0].is_signer = false;
    accounts[2].owner = key(99);
    accounts[3].lamports = 0;
    fails_untouched(accounts, ProgramError::MissingRequiredSignature);

    let mut accounts = valid_accounts();
    accounts[2].owner = key(99);
    accounts.truncate(3);
    fails_untouched(accounts, ProgramError::IncorrectProgramId);

    let mut accounts = valid_accounts();
    accounts[3].lamports = 0;
    accounts[3].data[0] = 1;
    fails_untouched(accounts, ProgramError::Custom(1));

    let mut accounts = valid_accounts();
    accounts[3].data[0] = 1;
    accounts.truncate(5);
    fails_untouched(accounts, ProgramError::AccountAlreadyInitialized);
}

#[test]
fn init_escrow_ignores_accounts_after_the_sixth() {
    let mut accounts = valid_accounts();
    accounts.push(AccountInfo::new(key(200), false, 0, vec![1, 2, 3], key(0)));
    let invocation = Processor::process_init_escrow(&mut accounts, u64::MAX, &program_id()).unwrap();
    assert_eq!(invocation, expected_invocation());
    assert_eq!(accounts[6], AccountInfo::new(key(200), false, 0, vec![1, 2, 3], key(0)));
    assert_eq!(Escrow::unpack_unchecked(&accounts[3].data).unwrap().expected_amount, u64::MAX);
}

#[test]
fn process_rejects_a_malformed_instruction() {
    let accounts = valid_accounts();
    for payload in [vec![], vec![1u8, 0, 0, 0, 0, 0, 0, 0, 0], vec![0u8, 1, 2, 3]] {
        let mut given = accounts.clone();
        assert_eq!(Processor::process(&program_id(), &mut given, &payload), Err(ProgramError::Custom(0)));
        assert_eq!(given, accounts);
    }
}

#[test]
fn account_accessors() {
    let account = AccountInfo::new(key(1), true, 42, vec![1, 2, 3], key(2));
    assert_eq!(account.lamports(), 42);
    assert_eq!(account.data_len(), 3);
    assert_eq!(account.key, key(1));
    assert_eq!(account.owner, key(2));
    assert!(account.is_signer);
}
