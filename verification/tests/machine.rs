use nebula_vault::error::{ProcessError, VaultError};
use nebula_vault::ident::Identity;
use nebula_vault::instruction::VaultInstruction;
use nebula_vault::processor::{
    process_deposit, process_initialize, process_set_timelock, process_withdraw,
};
use nebula_vault::state::{VaultState, RECORD_LEN};

fn ident(b: u8) -> Identity {
    Identity { bytes: vec![b; 32] }
}

fn token_account_bytes(mint: &Identity) -> Vec<u8> {
    let mut data = vec![0u8; 165];
    data[..32].copy_from_slice(&mint.bytes);
    data[108] = 1;
    data
}

fn fresh_vault(owner: &Identity, mint: &Identity) -> Vec<u8> {
    let mut storage = vec![0u8; RECORD_LEN];
    process_initialize(&mut storage, owner, mint, true).unwrap();
    storage
}

#[test]
fn deposit_is_owner_gated() {
    let owner = ident(1);
    let mint = ident(2);
    let intruder = ident(3);
    let token_data = token_account_bytes(&mint);
    let mut storage = fresh_vault(&owner, &mint);
    process_deposit(&mut storage, &owner, token_data.as_slice(), 40).unwrap();

    let before = storage.clone();
    let r = process_deposit(&mut storage, &intruder, token_data.as_slice(), 40);
    assert_eq!(r, Err(ProcessError::Vault(VaultError::AuthorityMismatch)));
    assert_eq!(storage, before);
    assert_eq!(VaultState::from_bytes(storage.as_slice()).unwrap().balance, 40);
}

#[test]
fn deposit_overflow_boundary() {
    let owner = ident(1);
    let mint = ident(2);
    let token_data = token_account_bytes(&mint);
    let mut storage = fresh_vault(&owner, &mint);

    // Up to the boundary is fine ...
    process_deposit(&mut storage, &owner, token_data.as_slice(), u64::MAX).unwrap();
    assert_eq!(VaultState::from_bytes(storage.as_slice()).unwrap().balance, u64::MAX);

    // ... one past it fails closed and changes nothing.
    let before = storage.clone();
    let r = process_deposit(&mut storage, &owner, token_data.as_slice(), 1);
    assert_eq!(r, Err(ProcessError::Vault(VaultError::AmountOverflow)));
    assert_eq!(storage, before);
}

#[test]
fn withdraw_respects_balance() {
    let owner = ident(1);
    let mint = ident(2);
    let token_data = token_account_bytes(&mint);
    let mut storage = fresh_vault(&owner, &mint);
    process_deposit(&mut storage, &owner, token_data.as_slice(), 100).unwrap();

    let before = storage.clone();
    let r = process_withdraw(&mut storage, &owner, 101, 50);
    assert_eq!(r, Err(ProcessError::Vault(VaultError::InsufficientFunds)));
    assert_eq!(storage, before);
    let state = VaultState::from_bytes(storage.as_slice()).unwrap();
    assert_eq!(state.balance, 100);
    assert_eq!(state.last_withdrawal, 0);
}

#[test]
fn withdraw_respects_cooldown() {
    let owner = ident(1);
    let mint = ident(2);
    let token_data = token_account_bytes(&mint);
    let mut storage = fresh_vault(&owner, &mint);
    process_deposit(&mut storage, &owner, token_data.as_slice(), 100).unwrap();
    process_withdraw(&mut storage, &owner, 10, 1000).unwrap();
    process_set_timelock(&mut storage, &owner, 60).unwrap();

    // Before last_withdrawal + timelock: refused, nothing moves.
    let before = storage.clone();
    let r = process_withdraw(&mut storage, &owner, 10, 1059);
    assert_eq!(r, Err(ProcessError::Vault(VaultError::TimelockNotExpired)));
    assert_eq!(storage, before);

    // At exactly last_withdrawal + timelock: permitted.
    let r = process_withdraw(&mut storage, &owner, 10, 1060);
    assert!(r.is_ok());
    let state = VaultState::from_bytes(storage.as_slice()).unwrap();
    assert_eq!(state.balance, 80);
    assert_eq!(state.last_withdrawal, 1060);
}

#[test]
fn first_withdrawal_edge_case() {
    let owner = ident(1);
    let mint = ident(2);
    let token_data = token_account_bytes(&mint);
    let mut storage = fresh_vault(&owner, &mint);
    process_deposit(&mut storage, &owner, token_data.as_slice(), 100).unwrap();
    process_set_timelock(&mut storage, &owner, 7).unwrap();

    // No withdrawal ever happened, so the window opens at 0 + 7.
    let r = process_withdraw(&mut storage, &owner, 5, 6);
    assert_eq!(r, Err(ProcessError::Vault(VaultError::TimelockNotExpired)));
    let r = process_withdraw(&mut storage, &owner, 5, 7);
    assert!(r.is_ok());
    let state = VaultState::from_bytes(storage.as_slice()).unwrap();
    assert_eq!(state.balance, 95);
    assert_eq!(state.last_withdrawal, 7);
}

#[test]
fn set_timelock_is_owner_gated_and_exact() {
    let owner = ident(1);
    let mint = ident(2);
    let intruder = ident(3);
    let mut storage = fresh_vault(&owner, &mint);

    process_set_timelock(&mut storage, &owner, 3600).unwrap();
    assert_eq!(VaultState::from_bytes(storage.as_slice()).unwrap().timelock, 3600);

    let before = storage.clone();
    let r = process_set_timelock(&mut storage, &intruder, 1);
    assert_eq!(r, Err(ProcessError::Vault(VaultError::AuthorityMismatch)));
    assert_eq!(storage, before);
    assert_eq!(VaultState::from_bytes(storage.as_slice()).unwrap().timelock, 3600);
}

#[test]
fn negative_timelock_round_trips() {
    let owner = ident(1);
    let mint = ident(2);
    let mut storage = fresh_vault(&owner, &mint);
    process_set_timelock(&mut storage, &owner, -3).unwrap();
    let state = VaultState::from_bytes(storage.as_slice()).unwrap();
    assert_eq!(state.timelock, -3);
    // A negative window opens before the moment it is measured from.
    let token_data = token_account_bytes(&mint);
    process_deposit(&mut storage, &owner, token_data.as_slice(), 10).unwrap();
    assert!(process_withdraw(&mut storage, &owner, 1, -3).is_ok());
}

#[test]
fn deposit_rejects_foreign_mint() {
    let owner = ident(1);
    let mint = ident(2);
    let other_mint = ident(6);
    let mut storage = fresh_vault(&owner, &mint);

    let before = storage.clone();
    let token_data = token_account_bytes(&other_mint);
    let r = process_deposit(&mut storage, &owner, token_data.as_slice(), 10);
    assert_eq!(r, Err(ProcessError::InvalidAccountData));
    assert_eq!(storage, before);
}

#[test]
fn deposit_rejects_invalid_custody_record() {
    let owner = ident(1);
    let mint = ident(2);
    let mut storage = fresh_vault(&owner, &mint);

    // Wrong width.
    let r = process_deposit(&mut storage, &owner, vec![0u8; 164].as_slice(), 10);
    assert_eq!(r, Err(ProcessError::InvalidAccountData));

    // Right mint, but the record was never initialized.
    let mut token_data = token_account_bytes(&mint);
    token_data[108] = 0;
    let r = process_deposit(&mut storage, &owner, token_data.as_slice(), 10);
    assert_eq!(r, Err(ProcessError::InvalidAccountData));

    // Right mint, but a mangled optional-field tag.
    let mut token_data = token_account_bytes(&mint);
    token_data[72] = 2;
    let r = process_deposit(&mut storage, &owner, token_data.as_slice(), 10);
    assert_eq!(r, Err(ProcessError::InvalidAccountData));

    assert_eq!(VaultState::from_bytes(storage.as_slice()).unwrap().balance, 0);
}

#[test]
fn record_layout_is_exact() {
    let owner = ident(1);
    let mint = ident(2);
    let token_data = token_account_bytes(&mint);
    let mut storage = fresh_vault(&owner, &mint);
    process_deposit(&mut storage, &owner, token_data.as_slice(), 0x0102030405060708).unwrap();
    process_set_timelock(&mut storage, &owner, -2).unwrap();

    assert_eq!(storage.len(), 120);
    assert_eq!(&storage[0..32], &[1u8; 32]);
    assert_eq!(&storage[32..64], &[2u8; 32]);
    assert_eq!(&storage[64..96], &[0u8; 32]);
    // balance, little endian
    assert_eq!(&storage[96..104], &[8, 7, 6, 5, 4, 3, 2, 1]);
    // timelock -2, two's complement little endian
    assert_eq!(&storage[104..112], &[0xFE, 0xFF, 0xFF, 0xFF, 0xFF, 0xFF, 0xFF, 0xFF]);
    // last withdrawal still zero
    assert_eq!(&storage[112..120], &[0u8; 8]);
}

#[test]
fn record_rejects_other_widths() {
    assert_eq!(
        VaultState::from_bytes(vec![0u8; 119].as_slice()),
        Err(ProcessError::InvalidAccountData)
    );
    assert_eq!(
        VaultState::from_bytes(vec![0u8; 121].as_slice()),
        Err(ProcessError::InvalidAccountData)
    );
}

#[test]
fn instruction_wire_format_is_exact() {
    assert_eq!(VaultInstruction::Initialize.pack(), vec![0u8]);
    assert_eq!(
        VaultInstruction::Deposit { amount: 100 }.pack(),
        vec![1u8, 100, 0, 0, 0, 0, 0, 0, 0]
    );
    assert_eq!(
        VaultInstruction::Withdraw { amount: 0x0102030405060708 }.pack(),
        vec![2u8, 8, 7, 6, 5, 4, 3, 2, 1]
    );
    assert_eq!(
        VaultInstruction::SetTimelock { new_timelock: -1 }.pack(),
        vec![3u8, 0xFF, 0xFF, 0xFF, 0xFF, 0xFF, 0xFF, 0xFF, 0xFF]
    );
}

#[test]
fn instruction_round_trips() {
    let cases = [
        VaultInstruction::Initialize,
        VaultInstruction::Deposit { amount: 0 },
        VaultInstruction::Deposit { amount: u64::MAX },
        VaultInstruction::Withdraw { amount: 7 },
        VaultInstruction::SetTimelock { new_timelock: i64::MIN },
        VaultInstruction::SetTimelock { new_timelock: i64::MAX },
    ];
    for i in cases {
        assert_eq!(VaultInstruction::unpack(i.pack().as_slice()), Ok(i));
    }
}

#[test]
fn error_codes_follow_declaration_order() {
    assert_eq!(VaultError::InvalidInstruction.code(), 0);
    assert_eq!(VaultError::NotRentExempt.code(), 1);
    assert_eq!(VaultError::ExpectedAmountMismatch.code(), 2);
    assert_eq!(VaultError::AmountOverflow.code(), 3);
    assert_eq!(VaultError::InsufficientFunds.code(), 4);
    assert_eq!(VaultError::AuthorityMismatch.code(), 5);
    assert_eq!(VaultError::TimelockNotExpired.code(), 6);
}

#[test]
fn malformed_vault_storage_is_rejected() {
    let owner = ident(1);
    let mut storage = vec![0u8; RECORD_LEN - 1];
    let r = process_withdraw(&mut storage, &owner, 1, 0);
    assert_eq!(r, Err(ProcessError::InvalidAccountData));
    let r = process_set_timelock(&mut storage, &owner, 1);
    assert_eq!(r, Err(ProcessError::InvalidAccountData));
}
