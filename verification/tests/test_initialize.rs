use anchor_lang::prelude::{Pubkey, Rent};
use lamports_vault::{
    create_vault_address, create_vault_state_address, find_vault_address, find_vault_state_address, id, initialize, AccountKind, Initialize, Ledger, RentExemption,
    VaultError, VaultState, SYSTEM_PROGRAM_ID,
};

const ONE_SOL: u64 = 1_000_000_000;
const DEFAULT_MAX_WITHDRAW: u64 = 1_000 * ONE_SOL;

fn init_rent() -> RentExemption {
    let rent = Rent::default();
    RentExemption {
        empty_account: rent.minimum_balance(0),
        vault_state_account: rent.minimum_balance(8 + VaultState::INIT_SPACE),
    }
}

fn init_accounts(user: &[u8; 32]) -> Initialize {
    Initialize {
        user: *user,
        user_is_signer: true,
        system_program: SYSTEM_PROGRAM_ID,
        vault: find_vault_address(user).unwrap().0,
        vault_state: find_vault_state_address(user).unwrap().0,
    }
}

#[test]
fn initialize_creates_vault_state_and_funds_vault() {
    let mut ledger = Ledger::new();
    let payer = [7u8; 32];
    ledger.airdrop(&payer, 10 * ONE_SOL).unwrap();

    let (vault_state, expected_state_bump) = find_vault_state_address(&payer).unwrap();
    let (vault, expected_vault_bump) = find_vault_address(&payer).unwrap();

    initialize(&mut ledger, &init_accounts(&payer), DEFAULT_MAX_WITHDRAW, &init_rent())
        .expect("initialize should succeed");

    let state_account = ledger.get(&vault_state);
    let state = match state_account.kind {
        AccountKind::VaultState(state) => state,
        _ => panic!("vault_state account should exist"),
    };
    assert!(state_account.lamports > 0, "vault_state must be rent-exempt");

    let data = state.try_serialize();
    assert!(data.len() >= 10, "vault_state account too small");
    assert_eq!(data[8], expected_vault_bump, "vault_bump mismatch");
    assert_eq!(data[9], expected_state_bump, "state_bump mismatch");

    let vault_balance = ledger.get(&vault).lamports;
    assert!(vault_balance > 0, "vault should have been funded with rent-exempt lamports");
}

#[test]
fn initialize_twice_for_same_payer_fails() {
    let mut ledger = Ledger::new();
    let payer = [7u8; 32];
    ledger.airdrop(&payer, 10 * ONE_SOL).unwrap();

    let accounts = init_accounts(&payer);
    initialize(&mut ledger, &accounts, DEFAULT_MAX_WITHDRAW, &init_rent()).expect("first initialize should succeed");

    let result = initialize(&mut ledger, &accounts, DEFAULT_MAX_WITHDRAW, &init_rent());
    assert!(result.is_err(), "initializing the same vault twice must fail");
    assert_eq!(result, Err(VaultError::AccountAlreadyInUse));
}

#[test]
fn initialize_with_separate_payers_creates_independent_vaults() {
    let mut ledger = Ledger::new();
    let alice = [1u8; 32];
    let bob = [2u8; 32];
    ledger.airdrop(&alice, 10 * ONE_SOL).unwrap();
    ledger.airdrop(&bob, 10 * ONE_SOL).unwrap();

    initialize(&mut ledger, &init_accounts(&alice), DEFAULT_MAX_WITHDRAW, &init_rent())
        .expect("alice init should succeed");
    initialize(&mut ledger, &init_accounts(&bob), DEFAULT_MAX_WITHDRAW, &init_rent())
        .expect("bob init should succeed");

    let (alice_vault, _) = find_vault_address(&alice).unwrap();
    let (bob_vault, _) = find_vault_address(&bob).unwrap();
    assert_ne!(alice_vault, bob_vault, "vaults should be independent PDAs");
    assert!(ledger.get(&alice_vault).lamports > 0);
    assert!(ledger.get(&bob_vault).lamports > 0);
}

#[test]
fn initialize_records_bumps_limit_and_rents() {
    let mut ledger = Ledger::new();
    let payer = [9u8; 32];
    ledger.airdrop(&payer, 10 * ONE_SOL).unwrap();
    let rent = init_rent();
    let accounts = init_accounts(&payer);
    initialize(&mut ledger, &accounts, 5 * ONE_SOL, &rent).unwrap();

    let (_, vault_bump) = find_vault_address(&payer).unwrap();
    let (_, state_bump) = find_vault_state_address(&payer).unwrap();
    let state = ledger.get(&accounts.vault_state);
    assert_eq!(state.kind, AccountKind::VaultState(VaultState { vault_bump, bump: state_bump, max_withdraw: 5 * ONE_SOL }));
    assert_eq!(state.lamports, 1_016_160);
    assert_eq!(ledger.get(&accounts.vault).lamports, 890_880);
    assert_eq!(ledger.get(&payer).lamports, 10 * ONE_SOL - 1_016_160 - 890_880);
    assert_eq!(ledger.total_lamports(), 10 * ONE_SOL as u128);
}

#[test]
fn derived_addresses_match_the_runtime() {
    let user = [3u8; 32];
    let program = Pubkey::new_from_array(id());
    assert_eq!(program, Pubkey::from_str_const("9AvGuh5C8cYcYU7RwwWQU9iDFqWpjQ9MnGZ8cfbkJPLc"));
    let (vault, vault_bump) = Pubkey::find_program_address(&[b"vault", &user], &program);
    let (state, state_bump) = Pubkey::find_program_address(&[b"vault_state", &user], &program);
    assert_eq!(find_vault_address(&user), Some((vault.to_bytes(), vault_bump)));
    assert_eq!(find_vault_state_address(&user), Some((state.to_bytes(), state_bump)));
    assert_ne!(vault.to_bytes(), user);
}

#[test]
fn initialize_with_wrong_vault_address_fails() {
    let mut ledger = Ledger::new();
    let payer = [7u8; 32];
    ledger.airdrop(&payer, 10 * ONE_SOL).unwrap();
    let mut accounts = init_accounts(&payer);
    accounts.vault = find_vault_address(&[8u8; 32]).unwrap().0;
    let result = initialize(&mut ledger, &accounts, DEFAULT_MAX_WITHDRAW, &init_rent());
    assert_eq!(result, Err(VaultError::ConstraintSeeds));
    assert_eq!(ledger.get(&payer).lamports, 10 * ONE_SOL);
}

#[test]
fn initialize_without_funds_fails() {
    let mut ledger = Ledger::new();
    let payer = [7u8; 32];
    ledger.airdrop(&payer, 1_000_000).unwrap();
    let result = initialize(&mut ledger, &init_accounts(&payer), DEFAULT_MAX_WITHDRAW, &init_rent());
    assert_eq!(result, Err(VaultError::InsufficientFunds));
    assert_eq!(ledger.get(&payer).lamports, 1_000_000);
}

#[test]
fn initialize_passing_the_same_account_twice_fails() {
    let mut ledger = Ledger::new();
    let payer = [7u8; 32];
    ledger.airdrop(&payer, 10 * ONE_SOL).unwrap();
    let mut accounts = init_accounts(&payer);
    accounts.vault = payer;
    let result = initialize(&mut ledger, &accounts, DEFAULT_MAX_WITHDRAW, &init_rent());
    assert_eq!(result, Err(VaultError::ConstraintSeeds));
    assert_eq!(ledger.get(&payer).lamports, 10 * ONE_SOL);
}

#[test]
fn bump_seeds_recreate_the_addresses() {
    use_bumps(&[4u8; 32]);
}

fn use_bumps(user: &[u8; 32]) {
    let (vault, vault_bump) = find_vault_address(user).unwrap();
    let (state, state_bump) = find_vault_state_address(user).unwrap();
    assert_eq!(create_vault_address(user, vault_bump), Some(vault));
    assert_eq!(create_vault_state_address(user, state_bump), Some(state));
    assert_ne!(create_vault_address(user, vault_bump.wrapping_sub(1)), Some(vault));
}

#[test]
fn initialize_needs_the_users_signature_and_the_system_program() {
    let mut ledger = Ledger::new();
    let payer = [7u8; 32];
    ledger.airdrop(&payer, 10 * ONE_SOL).unwrap();
    let mut unsigned = init_accounts(&payer);
    unsigned.user_is_signer = false;
    assert_eq!(initialize(&mut ledger, &unsigned, DEFAULT_MAX_WITHDRAW, &init_rent()), Err(VaultError::AccountNotSigner));
    let mut wrong_program = init_accounts(&payer);
    wrong_program.system_program = [1u8; 32];
    assert_eq!(
        initialize(&mut ledger, &wrong_program, DEFAULT_MAX_WITHDRAW, &init_rent()),
        Err(VaultError::InvalidProgramId)
    );
    assert_eq!(VaultError::AccountNotSigner.code(), Some(3010));
    assert_eq!(VaultError::InvalidProgramId.code(), Some(3008));
    assert_eq!(ledger.get(&payer).lamports, 10 * ONE_SOL);
    assert_eq!(SYSTEM_PROGRAM_ID, anchor_lang::solana_program::system_program::ID.to_bytes());
}

#[test]
fn initialize_creates_the_state_before_checking_the_vault_seeds() {
    let mut ledger = Ledger::new();
    let payer = [7u8; 32];
    ledger.airdrop(&payer, 1_000_000).unwrap();
    let mut accounts = init_accounts(&payer);
    accounts.vault = find_vault_address(&[8u8; 32]).unwrap().0;
    let result = initialize(&mut ledger, &accounts, DEFAULT_MAX_WITHDRAW, &init_rent());
    assert_eq!(result, Err(VaultError::InsufficientFunds));
}

#[test]
fn initialize_records_the_largest_bumps() {
    let user = [5u8; 32];
    let (_, vault_bump) = find_vault_address(&user).unwrap();
    let (_, state_bump) = find_vault_state_address(&user).unwrap();
    for b in vault_bump.saturating_add(1)..=255 {
        if b > vault_bump {
            assert_eq!(create_vault_address(&user, b), None);
        }
    }
    for b in state_bump.saturating_add(1)..=255 {
        if b > state_bump {
            assert_eq!(create_vault_state_address(&user, b), None);
        }
    }
}

#[test]
fn initialize_leaving_the_payer_below_rent_exemption_fails() {
    let mut ledger = Ledger::new();
    let payer = [7u8; 32];
    ledger.airdrop(&payer, 1_016_160 + 890_880 + 10).unwrap();
    let result = initialize(&mut ledger, &init_accounts(&payer), DEFAULT_MAX_WITHDRAW, &init_rent());
    assert_eq!(result, Err(VaultError::InsufficientFundsForRent));
    assert_eq!(ledger.get(&payer).lamports, 1_016_160 + 890_880 + 10);
}
