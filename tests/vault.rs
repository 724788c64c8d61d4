use astro_gate::{
    drain_account, process_instruction, withdraw, AccountView, CredentialConfig, Transfer,
    VaultError, LOCK_TIME, TOKEN_ACCOUNT_LEN,
};
use solana_program::pubkey::Pubkey;

const PROGRAM: [u8; 32] = [7u8; 32];
const OWNER: [u8; 32] = [11u8; 32];
const CALLER: [u8; 32] = [21u8; 32];
const MINT: [u8; 32] = [33u8; 32];
const SEED: &str = "vault";
const CREATED: i64 = 1_650_000_000;

fn custody_key(owner: [u8; 32], seed: &str) -> [u8; 32] {
    Pubkey::create_with_seed(
        &Pubkey::new_from_array(owner),
        seed,
        &Pubkey::new_from_array(PROGRAM),
    )
    .unwrap()
    .to_bytes()
}

fn account(key: [u8; 32], owner: [u8; 32], is_signer: bool, lamports: u64, data: Vec<u8>) -> AccountView {
    AccountView { key, owner, is_signer, lamports, data }
}

fn withdraw_data(seed: &str, amount: u64) -> Vec<u8> {
    let mut d = (seed.len() as u32).to_le_bytes().to_vec();
    d.extend_from_slice(seed.as_bytes());
    d.extend_from_slice(&amount.to_le_bytes());
    d
}

fn withdraw_accounts(balance: u64, recipient_balance: u64) -> Vec<AccountView> {
    vec![
        account(custody_key(OWNER, SEED), PROGRAM, false, balance, vec![0u8; 8]),
        account(OWNER, [0u8; 32], true, recipient_balance, vec![]),
    ]
}

fn token_record(mint: [u8; 32], owner: [u8; 32], amount: u64) -> Vec<u8> {
    let mut d = vec![0u8; TOKEN_ACCOUNT_LEN];
    d[0..32].copy_from_slice(&mint);
    d[32..64].copy_from_slice(&owner);
    d[64..72].copy_from_slice(&amount.to_le_bytes());
    d[108] = 1;
    d
}

fn config() -> CredentialConfig {
    CredentialConfig { mint: MINT, min_amount: 1 }
}

fn drain_accounts(balance: u64, caller_signs: bool, record: Vec<u8>) -> Vec<AccountView> {
    vec![
        account(custody_key(OWNER, SEED), PROGRAM, false, balance, CREATED.to_le_bytes().to_vec()),
        account(CALLER, [0u8; 32], caller_signs, 5, vec![]),
        account([44u8; 32], [45u8; 32], false, 2_039_280, record),
    ]
}

fn lamports(accounts: &[AccountView]) -> Vec<u64> {
    accounts.iter().map(|a| a.lamports).collect()
}

#[test]
fn withdraw_reserve_shortfall_takes_whole_balance() {
    let mut accounts = withdraw_accounts(1_000_000, 50);
    let r = withdraw(&PROGRAM, &mut accounts, &withdraw_data(SEED, 200_000), 890_000);
    assert_eq!(r, Ok(Transfer { amount: 1_000_000, clamped: true, advisory: false }));
    assert_eq!(lamports(&accounts), vec![0, 1_000_050]);
}

#[test]
fn withdraw_within_reserve_moves_request() {
    let mut accounts = withdraw_accounts(1_000_000, 50);
    let r = withdraw(&PROGRAM, &mut accounts, &withdraw_data(SEED, 200_000), 100_000);
    assert_eq!(r, Ok(Transfer { amount: 200_000, clamped: false, advisory: false }));
    assert_eq!(lamports(&accounts), vec![800_000, 200_050]);
}

#[test]
fn withdraw_exactly_to_reserve_is_not_clamped() {
    let mut accounts = withdraw_accounts(1_000_000, 0);
    let r = withdraw(&PROGRAM, &mut accounts, &withdraw_data(SEED, 110_000), 890_000);
    assert_eq!(r, Ok(Transfer { amount: 110_000, clamped: false, advisory: false }));
    assert_eq!(lamports(&accounts), vec![890_000, 110_000]);
}

#[test]
fn withdraw_more_than_balance_fails() {
    let mut accounts = withdraw_accounts(1_000_000, 50);
    let r = withdraw(&PROGRAM, &mut accounts, &withdraw_data(SEED, 1_000_001), 0);
    assert_eq!(r, Err(VaultError::InsufficientFunds));
    assert_eq!(lamports(&accounts), vec![1_000_000, 50]);
}

#[test]
fn withdraw_foreign_custody_fails() {
    let mut accounts = withdraw_accounts(1_000_000, 50);
    accounts[0].owner = [99u8; 32];
    let r = withdraw(&PROGRAM, &mut accounts, &withdraw_data(SEED, 10), 0);
    assert_eq!(r, Err(VaultError::IncorrectOwner([99u8; 32])));
    assert_eq!(lamports(&accounts), vec![1_000_000, 50]);
}

#[test]
fn withdraw_unsigned_fails() {
    let mut accounts = withdraw_accounts(1_000_000, 50);
    accounts[1].is_signer = false;
    let r = withdraw(&PROGRAM, &mut accounts, &withdraw_data(SEED, 10), 0);
    assert_eq!(r, Err(VaultError::MissingSignature));
}

#[test]
fn withdraw_by_other_owner_fails() {
    let mut accounts = withdraw_accounts(1_000_000, 50);
    accounts[1].key = [12u8; 32];
    let r = withdraw(&PROGRAM, &mut accounts, &withdraw_data(SEED, 10), 0);
    assert_eq!(r, Err(VaultError::IllegalOwner));
    assert_eq!(lamports(&accounts), vec![1_000_000, 50]);
}

#[test]
fn withdraw_other_seed_fails() {
    let mut accounts = withdraw_accounts(1_000_000, 50);
    let r = withdraw(&PROGRAM, &mut accounts, &withdraw_data("other", 10), 0);
    assert_eq!(r, Err(VaultError::IllegalOwner));
}

#[test]
fn withdraw_long_seed_fails() {
    let mut accounts = withdraw_accounts(1_000_000, 50);
    let seed = "s".repeat(33);
    let r = withdraw(&PROGRAM, &mut accounts, &withdraw_data(&seed, 10), 0);
    assert_eq!(r, Err(VaultError::MaxSeedLengthExceeded));
}

#[test]
fn withdraw_malformed_request_fails() {
    let mut accounts = withdraw_accounts(1_000_000, 50);
    let mut data = withdraw_data(SEED, 10);
    data.push(0);
    let r = withdraw(&PROGRAM, &mut accounts, &data, 0);
    assert_eq!(r, Err(VaultError::InvalidInstructionData));
    let r = withdraw(&PROGRAM, &mut accounts, &[1, 0, 0], 0);
    assert_eq!(r, Err(VaultError::InvalidInstructionData));
    let mut bad_utf8 = vec![1, 0, 0, 0, 0xff];
    bad_utf8.extend_from_slice(&10u64.to_le_bytes());
    let r = withdraw(&PROGRAM, &mut accounts, &bad_utf8, 0);
    assert_eq!(r, Err(VaultError::InvalidInstructionData));
}

#[test]
fn withdraw_missing_accounts_fails() {
    let mut accounts = withdraw_accounts(1_000_000, 50);
    accounts.pop();
    let r = withdraw(&PROGRAM, &mut accounts, &withdraw_data(SEED, 10), 0);
    assert_eq!(r, Err(VaultError::NotEnoughAccountKeys));
    let mut none: Vec<AccountView> = vec![];
    let r = withdraw(&PROGRAM, &mut none, &withdraw_data(SEED, 10), 0);
    assert_eq!(r, Err(VaultError::NotEnoughAccountKeys));
}

#[test]
fn withdraw_recipient_overflow_fails() {
    let mut accounts = withdraw_accounts(1_000_000, u64::MAX - 5);
    let r = withdraw(&PROGRAM, &mut accounts, &withdraw_data(SEED, 10), 0);
    assert_eq!(r, Err(VaultError::BalanceOverflow));
    assert_eq!(lamports(&accounts), vec![1_000_000, u64::MAX - 5]);
}

#[test]
fn drain_before_lock_end_fails() {
    let mut accounts = drain_accounts(1_000_000, true, token_record(MINT, CALLER, 1));
    let now = CREATED + LOCK_TIME - 1;
    let r = drain_account(&PROGRAM, &mut accounts, &500_000u64.to_le_bytes(), 890_000, now, &config());
    assert_eq!(r, Err(VaultError::LockActive));
    assert_eq!(lamports(&accounts), vec![1_000_000, 5, 2_039_280]);
}

#[test]
fn drain_after_lock_end_takes_clamped_amount() {
    let mut accounts = drain_accounts(1_000_000, true, token_record(MINT, CALLER, 1));
    let now = CREATED + LOCK_TIME + 1;
    let r = drain_account(&PROGRAM, &mut accounts, &500_000u64.to_le_bytes(), 890_000, now, &config());
    assert_eq!(r, Ok(Transfer { amount: 1_000_000, clamped: true, advisory: true }));
    assert_eq!(lamports(&accounts), vec![0, 1_000_005, 2_039_280]);
}

#[test]
fn drain_at_lock_end_moves_request() {
    let mut accounts = drain_accounts(1_000_000, true, token_record(MINT, CALLER, 3));
    let now = CREATED + LOCK_TIME;
    let r = drain_account(&PROGRAM, &mut accounts, &100_000u64.to_le_bytes(), 890_000, now, &config());
    assert_eq!(r, Ok(Transfer { amount: 100_000, clamped: false, advisory: false }));
    assert_eq!(lamports(&accounts), vec![900_000, 100_005, 2_039_280]);
}

#[test]
fn drain_more_than_balance_fails() {
    let mut accounts = drain_accounts(1_000_000, true, token_record(MINT, CALLER, 1));
    let now = CREATED + LOCK_TIME;
    let r = drain_account(&PROGRAM, &mut accounts, &1_000_001u64.to_le_bytes(), 0, now, &config());
    assert_eq!(r, Err(VaultError::InsufficientFunds));
    assert_eq!(lamports(&accounts), vec![1_000_000, 5, 2_039_280]);
}

#[test]
fn drain_whole_balance_is_not_clamped_without_reserve() {
    let mut accounts = drain_accounts(1_000_000, true, token_record(MINT, CALLER, 1));
    let now = CREATED + LOCK_TIME;
    let r = drain_account(&PROGRAM, &mut accounts, &1_000_000u64.to_le_bytes(), 0, now, &config());
    assert_eq!(r, Ok(Transfer { amount: 1_000_000, clamped: false, advisory: false }));
    assert_eq!(lamports(&accounts), vec![0, 1_000_005, 2_039_280]);
}

#[test]
fn drain_with_creation_in_future_is_locked() {
    let mut accounts = drain_accounts(1_000_000, true, token_record(MINT, CALLER, 1));
    let r = drain_account(&PROGRAM, &mut accounts, &10u64.to_le_bytes(), 0, CREATED - 1, &config());
    assert_eq!(r, Err(VaultError::LockActive));
    assert_eq!(lamports(&accounts), vec![1_000_000, 5, 2_039_280]);
}

#[test]
fn drain_at_creation_time_is_locked() {
    let mut accounts = drain_accounts(1_000_000, true, token_record(MINT, CALLER, 1));
    let r = drain_account(&PROGRAM, &mut accounts, &10u64.to_le_bytes(), 0, CREATED, &config());
    assert_eq!(r, Err(VaultError::LockActive));
    assert_eq!(lamports(&accounts), vec![1_000_000, 5, 2_039_280]);
}

#[test]
fn drain_foreign_custody_fails() {
    let mut accounts = drain_accounts(1_000_000, true, token_record(MINT, CALLER, 1));
    accounts[0].owner = [98u8; 32];
    let r = drain_account(&PROGRAM, &mut accounts, &10u64.to_le_bytes(), 0, CREATED + LOCK_TIME, &config());
    assert_eq!(r, Err(VaultError::IncorrectOwner([98u8; 32])));
    assert_eq!(lamports(&accounts), vec![1_000_000, 5, 2_039_280]);
}

#[test]
fn drain_checks_credential_before_signature() {
    let mut accounts = drain_accounts(1_000_000, false, token_record([1u8; 32], CALLER, 1));
    let now = CREATED + LOCK_TIME;
    let r = drain_account(&PROGRAM, &mut accounts, &10u64.to_le_bytes(), 0, now, &config());
    assert_eq!(r, Err(VaultError::WrongMint));
    let mut accounts = drain_accounts(1_000_000, false, token_record(MINT, CALLER, 1));
    let r = drain_account(&PROGRAM, &mut accounts, &10u64.to_le_bytes(), 0, now, &config());
    assert_eq!(r, Err(VaultError::MissingSignature));
}

#[test]
fn drain_credential_of_other_owner_fails() {
    let mut accounts = drain_accounts(1_000_000, true, token_record(MINT, OWNER, 1));
    let r = drain_account(&PROGRAM, &mut accounts, &10u64.to_le_bytes(), 0, CREATED + LOCK_TIME, &config());
    assert_eq!(r, Err(VaultError::NotCredentialOwner));
}

#[test]
fn drain_bad_custody_record_fails() {
    let mut accounts = drain_accounts(1_000_000, true, token_record(MINT, CALLER, 1));
    accounts[0].data = vec![0u8; 9];
    let r = drain_account(&PROGRAM, &mut accounts, &10u64.to_le_bytes(), 0, CREATED + LOCK_TIME, &config());
    assert_eq!(r, Err(VaultError::InvalidAccountData));
}

#[test]
fn drain_bad_request_fails() {
    let mut accounts = drain_accounts(1_000_000, true, token_record(MINT, CALLER, 1));
    let r = drain_account(&PROGRAM, &mut accounts, &[1, 2, 3], 0, CREATED + LOCK_TIME, &config());
    assert_eq!(r, Err(VaultError::InvalidInstructionData));
}

#[test]
fn drain_missing_accounts_fails() {
    let mut accounts = drain_accounts(1_000_000, true, token_record(MINT, CALLER, 1));
    accounts.pop();
    let r = drain_account(&PROGRAM, &mut accounts, &10u64.to_le_bytes(), 0, CREATED + LOCK_TIME, &config());
    assert_eq!(r, Err(VaultError::NotEnoughAccountKeys));
}

#[test]
fn unknown_entrypoint_fails() {
    let mut accounts = withdraw_accounts(1_000_000, 50);
    let mut data = vec![7u8];
    data.extend(withdraw_data(SEED, 10));
    let r = process_instruction(&PROGRAM, &mut accounts, &data, 0, CREATED, &config());
    assert_eq!(r, Err(VaultError::InvalidInstructionData));
    assert_eq!(lamports(&accounts), vec![1_000_000, 50]);
    let r = process_instruction(&PROGRAM, &mut accounts, &[], 0, CREATED, &config());
    assert_eq!(r, Err(VaultError::InvalidInstructionData));
    assert_eq!(lamports(&accounts), vec![1_000_000, 50]);
}

#[test]
fn instruction_dispatches_withdraw() {
    let mut accounts = withdraw_accounts(1_000_000, 50);
    let mut data = vec![0u8];
    data.extend(withdraw_data(SEED, 200_000));
    let r = process_instruction(&PROGRAM, &mut accounts, &data, 890_000, CREATED, &config());
    assert_eq!(r, Ok(Transfer { amount: 1_000_000, clamped: true, advisory: false }));
    assert_eq!(lamports(&accounts), vec![0, 1_000_050]);
}

#[test]
fn instruction_dispatches_drain() {
    let mut accounts = drain_accounts(1_000_000, true, token_record(MINT, CALLER, 1));
    let mut data = vec![1u8];
    data.extend_from_slice(&10u64.to_le_bytes());
    let now = CREATED + LOCK_TIME - 1;
    let r = process_instruction(&PROGRAM, &mut accounts, &data, 0, now, &config());
    assert_eq!(r, Err(VaultError::LockActive));
    let r = process_instruction(&PROGRAM, &mut accounts, &data, 0, now + 2, &config());
    assert_eq!(r, Ok(Transfer { amount: 10, clamped: false, advisory: false }));
    assert_eq!(lamports(&accounts), vec![999_990, 15, 2_039_280]);
}

#[test]
fn instruction_foreign_custody_fails_for_both_entrypoints() {
    for tag in [0u8, 1u8] {
        let mut accounts = drain_accounts(1_000_000, true, token_record(MINT, CALLER, 1));
        accounts[0].owner = [97u8; 32];
        let mut data = vec![tag];
        data.extend_from_slice(&10u64.to_le_bytes());
        let r = process_instruction(&PROGRAM, &mut accounts, &data, 0, CREATED + LOCK_TIME, &config());
        assert_eq!(r, Err(VaultError::IncorrectOwner([97u8; 32])));
        assert_eq!(lamports(&accounts), vec![1_000_000, 5, 2_039_280]);
    }
}

#[test]
fn withdraw_under_marked_program_fails() {
    let mut program = [0u8; 32];
    program[11..].copy_from_slice(b"ProgramDerivedAddress");
    let mut accounts = vec![
        account([3u8; 32], program, false, 1_000, vec![]),
        account(OWNER, [0u8; 32], true, 0, vec![]),
    ];
    let r = withdraw(&program, &mut accounts, &withdraw_data(SEED, 10), 0);
    assert_eq!(r, Err(VaultError::IllegalOwner));
    assert_eq!(lamports(&accounts), vec![1_000, 0]);
}
