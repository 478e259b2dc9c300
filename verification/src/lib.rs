//! A vault that holds lamports on behalf of one user.
//!
//! Each user owns two program-derived accounts: the vault, a system account
//! that holds the deposited lamports, and the vault state, an account owned
//! by this program that records the two bump seeds and the largest amount one
//! withdrawal may move. The four instructions (`initialize`, `deposit`,
//! `withdraw`, `close`) are modelled over a [`Ledger`] of accounts, with the
//! account checks that the instruction's account list declares (except the
//! writability of `mut` accounts and the executability of the system
//! program, which the ledger does not record), the instruction body, the
//! system program's transfers and the runtime's rent rule, all verified.

pub mod constants;
pub mod error;
pub mod state;
pub mod ledger;
pub mod pda;
pub mod instructions;
pub mod laws;

pub use constants::{id, ANCHOR_DISCRIMINATOR_LENGTH, ID, SYSTEM_PROGRAM_ID, VAULT_SEED, VAULT_STATE_SEED};
pub use error::{ErrorCode, VaultError};
pub use state::VaultState;
pub use ledger::{fresh_ledger, same_key, Account, AccountKind, Ledger};
pub use pda::{create_vault_address, create_vault_state_address, find_vault_address, find_vault_state_address};

pub use instructions::close::{close_account_spec, close_spec, close_vault, close_vault_spec, Close};
pub use instructions::deposit::{deposit_lamports, deposit_lamports_spec, deposit_spec, Deposit};
pub use instructions::initialize::{
    initialize_accounts_spec, initialize_spec, initialize_vault, initialize_vault_spec, try_accounts, Initialize,
    InitializeBumps, InitializeContext,
};
pub use instructions::withdraw::{withdraw_lamports, withdraw_lamports_spec, withdraw_spec, Withdraw};
pub use instructions::{
    check_seeds, load_vault, load_vault_spec, rent_allows, rent_minimum, rent_paying, rent_transition_allowed, same_size,
    transfer, LoadedAccount, RentExemption, VaultContext};

use pda::{canonical_vault_bump, canonical_vault_state_bump, vault_address_with_bump, vault_state_address_with_bump};
use vstd::prelude::*;

verus! {

/// Creates the user's vault: the vault state account is created at the
/// address that `[VAULT_STATE_SEED, user]` derives and records the bump
/// seeds and `max_withdraw`; the vault, at the address that `[VAULT_SEED,
/// user]` derives, is funded. The user signs and pays both rents. Once it
/// succeeds, the three accounts pass the checks of `deposit`, `withdraw` and
/// `close`.
pub fn initialize(ledger: &mut Ledger, accounts: &Initialize, max_withdraw: u64, rent: &RentExemption) -> (r: Result<(), VaultError>)
    ensures
        match initialize_spec(old(ledger)@, *accounts, max_withdraw, *rent) {
            Ok(m) => r is Ok && final(ledger)@ == m,
            Err(e) => r == Err::<(), VaultError>(e) && final(ledger)@ == old(ledger)@,
        },
        final(ledger).total() == old(ledger).total(),
        r is Ok ==> (final(ledger)@[accounts.vault_state@].kind matches AccountKind::VaultState(st)
            && vault_address_with_bump(accounts.user@, st.vault_bump) == Some(accounts.vault@)
            && canonical_vault_bump(accounts.user@, st.vault_bump)
            && vault_state_address_with_bump(accounts.user@, st.bump) == Some(accounts.vault_state@)
            && canonical_vault_state_bump(accounts.user@, st.bump)),
        r is Ok ==> load_vault_spec(
            final(ledger)@,
            accounts.user,
            accounts.user_is_signer,
            accounts.vault,
            accounts.vault_state,
            accounts.system_program,
            false,
        ) is Ok && load_vault_spec(
            final(ledger)@,
            accounts.user,
            accounts.user_is_signer,
            accounts.vault,
            accounts.vault_state,
            accounts.system_program,
            true,
        ) is Ok,
{
    let pre_user = ledger.get(&accounts.user);
    let pre_vault = ledger.get(&accounts.vault);
    let pre_state = ledger.get(&accounts.vault_state);
    let mut ctx = match try_accounts(ledger, accounts, rent) {
        Ok(ctx) => ctx,
        Err(e) => {
            return Err(e);
        },
    };
    match initialize_vault(&mut ctx, max_withdraw, rent) {
        Ok(()) => {},
        Err(e) => {
            return Err(e);
        },
    }
    if !rent_allows(&pre_user, &ctx.user.account, rent) || !rent_allows(&pre_vault, &ctx.vault.account, rent)
        || !rent_allows(&pre_state, &ctx.vault_state.account, rent) {
        return Err(VaultError::InsufficientFundsForRent);
    }
    ledger.store(&ctx.user.key, ctx.user.account);
    ledger.store(&ctx.vault.key, ctx.vault.account);
    ledger.store(&ctx.vault_state.key, ctx.vault_state.account);
    Ok(())
}

/// Deposits `amount` lamports from the user into the user's vault. The user
/// signs; the vault and vault state must be those that the user's key
/// derives, and the vault state must exist.
pub fn deposit(ledger: &mut Ledger, accounts: &Deposit, amount: u64, rent: &RentExemption) -> (r: Result<(), VaultError>)
    ensures
        match deposit_spec(old(ledger)@, *accounts, amount, *rent) {
            Ok(m) => r is Ok && final(ledger)@ == m,
            Err(e) => r == Err::<(), VaultError>(e) && final(ledger)@ == old(ledger)@,
        },
        final(ledger).total() == old(ledger).total(),
{
    let mut ctx = match load_vault(
        ledger,
        &accounts.user,
        accounts.user_is_signer,
        &accounts.vault,
        &accounts.vault_state,
        &accounts.system_program,
        false,
    ) {
        Ok(ctx) => ctx,
        Err(e) => {
            return Err(e);
        },
    };
    let pre_user = ctx.user.account;
    let pre_vault = ctx.vault.account;
    match deposit_lamports(&mut ctx, amount) {
        Ok(()) => {},
        Err(e) => {
            return Err(e);
        },
    }
    if !rent_allows(&pre_user, &ctx.user.account, rent) || !rent_allows(&pre_vault, &ctx.vault.account, rent) {
        return Err(VaultError::InsufficientFundsForRent);
    }
    ledger.store(&ctx.user.key, ctx.user.account);
    ledger.store(&ctx.vault.key, ctx.vault.account);
    Ok(())
}

/// Withdraws `amount` lamports from the user's vault to the user. The user
/// signs; the vault and vault state must be those that the user's key
/// derives, the vault state must exist, and `amount` may not exceed the
/// limit that the vault state records.
pub fn withdraw(ledger: &mut Ledger, accounts: &Withdraw, amount: u64, rent: &RentExemption) -> (r: Result<(), VaultError>)
    ensures
        match withdraw_spec(old(ledger)@, *accounts, amount, *rent) {
            Ok(m) => r is Ok && final(ledger)@ == m,
            Err(e) => r == Err::<(), VaultError>(e) && final(ledger)@ == old(ledger)@,
        },
        final(ledger).total() == old(ledger).total(),
{
    let mut ctx = match load_vault(
        ledger,
        &accounts.user,
        accounts.user_is_signer,
        &accounts.vault,
        &accounts.vault_state,
        &accounts.system_program,
        false,
    ) {
        Ok(ctx) => ctx,
        Err(e) => {
            return Err(e);
        },
    };
    let pre_user = ctx.user.account;
    let pre_vault = ctx.vault.account;
    match withdraw_lamports(&mut ctx, amount) {
        Ok(()) => {},
        Err(e) => {
            return Err(e);
        },
    }
    if !rent_allows(&pre_user, &ctx.user.account, rent) || !rent_allows(&pre_vault, &ctx.vault.account, rent) {
        return Err(VaultError::InsufficientFundsForRent);
    }
    ledger.store(&ctx.user.key, ctx.user.account);
    ledger.store(&ctx.vault.key, ctx.vault.account);
    Ok(())
}

/// Closes the user's vault: every lamport of the vault and of the vault
/// state account goes to the user, and the vault state is gone. The user
/// signs; the vault and vault state must be those that the user's key
/// derives, and the vault state must exist.
pub fn close(ledger: &mut Ledger, accounts: &Close, rent: &RentExemption) -> (r: Result<(), VaultError>)
    ensures
        match close_spec(old(ledger)@, *accounts, *rent) {
            Ok(m) => r is Ok && final(ledger)@ == m,
            Err(e) => r == Err::<(), VaultError>(e) && final(ledger)@ == old(ledger)@,
        },
        final(ledger).total() == old(ledger).total(),
{
    let mut ctx = match load_vault(
        ledger,
        &accounts.user,
        accounts.user_is_signer,
        &accounts.vault,
        &accounts.vault_state,
        &accounts.system_program,
        true,
    ) {
        Ok(ctx) => ctx,
        Err(e) => {
            return Err(e);
        },
    };
    let pre_user = ctx.user.account;
    let pre_vault = ctx.vault.account;
    match close_vault(&mut ctx) {
        Ok(()) => {},
        Err(e) => {
            return Err(e);
        },
    }
    let user = ctx.user.account;
    let closed = ctx.vault_state.account;
    if user.lamports > u64::MAX - closed.lamports {
        return Err(VaultError::ArithmeticOverflow);
    }
    let post_user = Account { lamports: user.lamports + closed.lamports, kind: user.kind };
    if !rent_allows(&pre_user, &post_user, rent) || !rent_allows(&pre_vault, &ctx.vault.account, rent) {
        return Err(VaultError::InsufficientFundsForRent);
    }
    ledger.store(&ctx.user.key, post_user);
    ledger.store(&ctx.vault.key, ctx.vault.account);
    ledger.store(&ctx.vault_state.key, Account::empty());
    Ok(())
}

} // verus!
