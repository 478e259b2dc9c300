use anchor_lang::prelude::Rent;
use lamports_vault::{
    close, deposit, find_vault_address, find_vault_state_address, initialize, withdraw, Account, AccountKind, Close,
    Deposit, ErrorCode, Initialize, Ledger, RentExemption, VaultError, VaultState, Withdraw, SYSTEM_PROGRAM_ID,
};

const ONE_SOL: u64 = 1_000_000_000;
const DEFAULT_MAX_WITHDRAW: u64 = 1_000 * ONE_SOL;

fn withdraw_rent() -> RentExemption {
    let rent = Rent::default();
    RentExemption {
        empty_account: rent.minimum_balance(0),
        vault_state_account: rent.minimum_balance(8 + VaultState::INIT_SPACE),
    }
}

fn addresses(user: &[u8; 32]) -> ([u8; 32], [u8; 32]) {
    (find_vault_address(user).unwrap().0, find_vault_state_address(user).unwrap().0)
}

fn set_up_vault(ledger: &mut Ledger, user: &[u8; 32], max_withdraw: u64) {
    let (vault, vault_state) = addresses(user);
    initialize(ledger, &Initialize { user: *user, user_is_signer: true, vault, vault_state, system_program: SYSTEM_PROGRAM_ID }, max_withdraw, &withdraw_rent())
        .expect("initialize should succeed");
}

fn withdraw_accounts(user: &[u8; 32]) -> Withdraw {
    let (vault, vault_state) = addresses(user);
    Withdraw { user: *user, user_is_signer: true, vault, vault_state, system_program: SYSTEM_PROGRAM_ID }
}

fn deposit_into(ledger: &mut Ledger, user: &[u8; 32], amount: u64) {
    let (vault, vault_state) = addresses(user);
    deposit(ledger, &Deposit { user: *user, user_is_signer: true, vault, vault_state, system_program: SYSTEM_PROGRAM_ID }, amount, &withdraw_rent()).expect("deposit should succeed");
}

#[test]
fn withdraw_returns_lamports_to_user() {
    let mut ledger = Ledger::new();
    let user = [21u8; 32];
    ledger.airdrop(&user, 10 * ONE_SOL).unwrap();
    set_up_vault(&mut ledger, &user, DEFAULT_MAX_WITHDRAW);

    let deposit_amount = 3 * ONE_SOL;
    deposit_into(&mut ledger, &user, deposit_amount);

    let (vault, _) = addresses(&user);
    let vault_before = ledger.get(&vault).lamports;
    let user_before = ledger.get(&user).lamports;

    let withdraw_amount = ONE_SOL;
    withdraw(&mut ledger, &withdraw_accounts(&user), withdraw_amount, &withdraw_rent()).expect("withdraw should succeed");

    let vault_after = ledger.get(&vault).lamports;
    let user_after = ledger.get(&user).lamports;
    assert_eq!(vault_before - vault_after, withdraw_amount, "vault should shrink by exactly the withdrawn amount");
    assert!(user_after > user_before, "user balance should increase after withdraw");
    assert!(user_after - user_before <= withdraw_amount, "user net gain cannot exceed the withdrawn amount (fees)");
}

#[test]
fn withdraw_more_than_vault_holds_fails() {
    let mut ledger = Ledger::new();
    let user = [21u8; 32];
    ledger.airdrop(&user, 10 * ONE_SOL).unwrap();
    set_up_vault(&mut ledger, &user, DEFAULT_MAX_WITHDRAW);

    let res = withdraw(&mut ledger, &withdraw_accounts(&user), 100 * ONE_SOL, &withdraw_rent());
    assert!(res.is_err(), "withdrawing more than the vault holds must fail");
    assert_eq!(res, Err(VaultError::InsufficientFunds));
}

#[test]
fn withdraw_without_initialize_fails() {
    let mut ledger = Ledger::new();
    let user = [21u8; 32];
    ledger.airdrop(&user, 10 * ONE_SOL).unwrap();

    let res = withdraw(&mut ledger, &withdraw_accounts(&user), ONE_SOL, &withdraw_rent());
    assert!(res.is_err(), "withdraw without prior initialize must fail because vault_state does not exist");
}

#[test]
fn withdraw_with_wrong_user_fails() {
    let mut ledger = Ledger::new();
    let owner = [22u8; 32];
    let attacker = [23u8; 32];
    ledger.airdrop(&owner, 10 * ONE_SOL).unwrap();
    ledger.airdrop(&attacker, 10 * ONE_SOL).unwrap();

    set_up_vault(&mut ledger, &owner, DEFAULT_MAX_WITHDRAW);
    deposit_into(&mut ledger, &owner, 2 * ONE_SOL);

    let res = withdraw(&mut ledger, &withdraw_accounts(&attacker), ONE_SOL, &withdraw_rent());
    assert!(res.is_err(), "an attacker without an initialized vault must not be able to withdraw");

    let mut aimed = withdraw_accounts(&owner);
    aimed.user = attacker;
    assert_eq!(withdraw(&mut ledger, &aimed, ONE_SOL, &withdraw_rent()), Err(VaultError::ConstraintSeeds));
    assert_eq!(ledger.get(&addresses(&owner).0).lamports, 890_880 + 2 * ONE_SOL);
}

#[test]
fn withdraw_above_limit_is_refused() {
    let mut ledger = Ledger::new();
    let user = [24u8; 32];
    ledger.airdrop(&user, 10 * ONE_SOL).unwrap();
    set_up_vault(&mut ledger, &user, ONE_SOL);
    deposit_into(&mut ledger, &user, 5 * ONE_SOL);

    let res = withdraw(&mut ledger, &withdraw_accounts(&user), ONE_SOL + 1, &withdraw_rent());
    assert_eq!(res, Err(VaultError::Program(ErrorCode::ExceedsMaxWithdraw)));
    assert_eq!(res.unwrap_err().code(), Some(6001));
    withdraw(&mut ledger, &withdraw_accounts(&user), ONE_SOL, &withdraw_rent()).expect("a withdrawal at the limit succeeds");
}

#[test]
fn deposit_then_withdraw_restores_balances() {
    let mut ledger = Ledger::new();
    let user = [25u8; 32];
    ledger.airdrop(&user, 10 * ONE_SOL).unwrap();
    set_up_vault(&mut ledger, &user, DEFAULT_MAX_WITHDRAW);
    let (vault, _) = addresses(&user);
    let user_before = ledger.get(&user);
    let vault_before = ledger.get(&vault);

    deposit_into(&mut ledger, &user, 777);
    withdraw(&mut ledger, &withdraw_accounts(&user), 777, &withdraw_rent()).unwrap();

    assert_eq!(ledger.get(&user), user_before);
    assert_eq!(ledger.get(&vault), vault_before);
}

#[test]
fn close_returns_everything_to_the_user() {
    let mut ledger = Ledger::new();
    let user = [26u8; 32];
    ledger.airdrop(&user, 10 * ONE_SOL).unwrap();
    set_up_vault(&mut ledger, &user, DEFAULT_MAX_WITHDRAW);
    deposit_into(&mut ledger, &user, 2 * ONE_SOL);
    let (vault, vault_state) = addresses(&user);

    close(&mut ledger, &Close { user, user_is_signer: true, vault, vault_state, system_program: SYSTEM_PROGRAM_ID }, &withdraw_rent()).expect("close should succeed");

    assert_eq!(ledger.get(&user).lamports, 10 * ONE_SOL);
    assert_eq!(ledger.get(&vault), Account { lamports: 0, kind: AccountKind::System });
    assert_eq!(ledger.get(&vault_state), Account { lamports: 0, kind: AccountKind::System });
    let res = deposit(&mut ledger, &Deposit { user, user_is_signer: true, vault, vault_state, system_program: SYSTEM_PROGRAM_ID }, 1, &withdraw_rent());
    assert_eq!(res, Err(VaultError::AccountNotInitialized));
}

#[test]
fn withdraw_leaving_the_vault_below_rent_exemption_fails() {
    let mut ledger = Ledger::new();
    let user = [27u8; 32];
    ledger.airdrop(&user, 10 * ONE_SOL).unwrap();
    set_up_vault(&mut ledger, &user, DEFAULT_MAX_WITHDRAW);
    deposit_into(&mut ledger, &user, 1_000);
    let (vault, _) = addresses(&user);
    let res = withdraw(&mut ledger, &withdraw_accounts(&user), 1_001, &withdraw_rent());
    assert_eq!(res, Err(VaultError::InsufficientFundsForRent));
    assert_eq!(ledger.get(&vault).lamports, 890_880 + 1_000);
    withdraw(&mut ledger, &withdraw_accounts(&user), 1_000, &withdraw_rent()).expect("down to the minimum is allowed");
}

#[test]
fn withdraw_needs_the_users_signature() {
    let mut ledger = Ledger::new();
    let user = [28u8; 32];
    ledger.airdrop(&user, 10 * ONE_SOL).unwrap();
    set_up_vault(&mut ledger, &user, DEFAULT_MAX_WITHDRAW);
    deposit_into(&mut ledger, &user, ONE_SOL);
    let mut accounts = withdraw_accounts(&user);
    accounts.user_is_signer = false;
    assert_eq!(withdraw(&mut ledger, &accounts, 1, &withdraw_rent()), Err(VaultError::AccountNotSigner));
    let mut accounts = withdraw_accounts(&user);
    accounts.system_program = [2u8; 32];
    assert_eq!(withdraw(&mut ledger, &accounts, 1, &withdraw_rent()), Err(VaultError::InvalidProgramId));
}
