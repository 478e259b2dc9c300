use anchor_lang::prelude::borsh;
use sha2::{Digest, Sha256};
use lamports_vault::{
    id, same_key, transfer, Account, AccountKind, ErrorCode, Ledger, VaultError, VaultState, ANCHOR_DISCRIMINATOR_LENGTH,
};

#[test]
fn vault_state_data_layout() {
    let state = VaultState { vault_bump: 254, bump: 253, max_withdraw: 0x0102_0304_0506_0708 };
    let data = state.try_serialize();
    assert_eq!(data.len(), ANCHOR_DISCRIMINATOR_LENGTH + VaultState::INIT_SPACE);
    assert_eq!(&data[..8], &VaultState::DISCRIMINATOR);
    assert_eq!(&data[8..], &[254, 253, 8, 7, 6, 5, 4, 3, 2, 1]);
    assert_eq!(VaultState::try_deserialize(&data), Ok(state));
}

#[test]
fn vault_state_data_matches_borsh_and_the_tag() {
    let state = VaultState { vault_bump: 1, bump: 2, max_withdraw: 1_000_000_000_000 };
    let fields = borsh::to_vec(&(state.vault_bump, state.bump, state.max_withdraw)).unwrap();
    let data = state.try_serialize();
    assert_eq!(&data[8..], fields.as_slice());
    let digest = Sha256::digest(b"account:VaultState");
    assert_eq!(&digest[..8], &VaultState::DISCRIMINATOR);
}

#[test]
fn vault_state_data_errors() {
    let state = VaultState { vault_bump: 1, bump: 2, max_withdraw: 3 };
    let data = state.try_serialize();
    assert_eq!(VaultState::try_deserialize(&data[..7]), Err(VaultError::AccountDiscriminatorNotFound));
    let mut wrong = data.clone();
    wrong[0] ^= 1;
    assert_eq!(VaultState::try_deserialize(&wrong), Err(VaultError::AccountDiscriminatorMismatch));
    assert_eq!(VaultState::try_deserialize(&data[..17]), Err(VaultError::AccountDidNotDeserialize));
    let mut longer = data.clone();
    longer.push(99);
    assert_eq!(VaultState::try_deserialize(&longer), Ok(state));
    assert_eq!(VaultError::AccountDiscriminatorMismatch.code(), Some(3002));
}

#[test]
fn error_codes_and_messages() {
    assert_eq!(ErrorCode::CustomError.code(), 6000);
    assert_eq!(ErrorCode::ExceedsMaxWithdraw.code(), 6001);
    assert_eq!(ErrorCode::CustomError.message(), "Custom error message");
    assert_eq!(
        ErrorCode::ExceedsMaxWithdraw.message(),
        "Requested amount exceeds the vault's maximum withdrawal limit"
    );
    assert_eq!(VaultError::Program(ErrorCode::CustomError).code(), Some(6000));
    assert_eq!(VaultError::ConstraintSeeds.code(), Some(2006));
    assert_eq!(VaultError::AccountNotInitialized.code(), Some(3012));
    assert_eq!(VaultError::InsufficientFunds.code(), None);
}

#[test]
fn system_transfer_rules() {
    let mut from = Account { lamports: 10, kind: AccountKind::System };
    let mut to = Account { lamports: u64::MAX - 5, kind: AccountKind::Foreign };
    assert_eq!(transfer(&mut from, &mut to, 11), Err(VaultError::InsufficientFunds));
    assert_eq!(transfer(&mut from, &mut to, 6), Err(VaultError::ArithmeticOverflow));
    assert_eq!(transfer(&mut from, &mut to, 5), Ok(()));
    assert_eq!((from.lamports, to.lamports), (5, u64::MAX));
    let mut program_owned = Account { lamports: 10, kind: AccountKind::Foreign };
    assert_eq!(transfer(&mut program_owned, &mut from, 1), Err(VaultError::InvalidTransferSource));
}

#[test]
fn ledger_store_get_and_airdrop() {
    let mut ledger = Ledger::new();
    let a = [1u8; 32];
    let b = [2u8; 32];
    assert_eq!(ledger.get(&a), Account { lamports: 0, kind: AccountKind::System });
    ledger.airdrop(&a, 40).unwrap();
    ledger.airdrop(&a, 2).unwrap();
    ledger.store(&b, Account { lamports: 7, kind: AccountKind::Foreign });
    assert_eq!(ledger.get(&a).lamports, 42);
    assert_eq!(ledger.get(&b), Account { lamports: 7, kind: AccountKind::Foreign });
    assert_eq!(ledger.total_lamports(), 49);
    assert_eq!(ledger.airdrop(&a, u64::MAX), Err(VaultError::ArithmeticOverflow));
    assert_eq!(ledger.get(&a).lamports, 42);
    assert!(same_key(&a, &a));
    assert!(!same_key(&a, &b));
    assert_eq!(id()[0], 121);
}

#[test]
fn seeds_constraint() {
    let a = [5u8; 32];
    let b = [6u8; 32];
    assert_eq!(lamports_vault::check_seeds(Some(a), &a), Ok(()));
    assert_eq!(lamports_vault::check_seeds(Some(b), &a), Err(VaultError::ConstraintSeeds));
    assert_eq!(lamports_vault::check_seeds(None, &a), Err(VaultError::ConstraintSeeds));
}
