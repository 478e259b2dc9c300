use vstd::prelude::*;

use crate::error::VaultError;
use crate::instructions::{load_vault_spec, rent_transition_allowed, transfer, transfer_spec, LoadedAccount, RentExemption, VaultContext};
use crate::ledger::Account;

verus! {

/// The accounts a closing names: the signing user, the user's vault and the
/// user's vault state, all three written.
#[derive(Clone, Copy, Debug)]
pub struct Close {
    pub user: [u8; 32],
    /// Whether the user signed the transaction.
    pub user_is_signer: bool,
    pub vault: [u8; 32],
    pub vault_state: [u8; 32],
    /// The account given as the system program.
    pub system_program: [u8; 32],
}

/// What the body of a closing leaves in the loaded accounts: every lamport
/// of the vault moved to the user.
pub open spec fn close_vault_spec(ctx: VaultContext) -> Result<VaultContext, VaultError> {
    match transfer_spec(ctx.vault.account, ctx.user.account, ctx.vault.account.lamports) {
        Ok((v, u)) => Ok(VaultContext {
            user: LoadedAccount { key: ctx.user.key, account: u },
            vault: LoadedAccount { key: ctx.vault.key, account: v },
            vault_state: ctx.vault_state,
            state: ctx.state,
        }),
        Err(e) => Err(e),
    }
}

/// The body of a closing: empties the vault into the user's account, the
/// program signing for the vault.
pub fn close_vault(ctx: &mut VaultContext) -> (r: Result<(), VaultError>)
    ensures
        match close_vault_spec(*old(ctx)) {
            Ok(c) => r is Ok && *final(ctx) == c,
            Err(e) => r == Err::<(), VaultError>(e) && *final(ctx) == *old(ctx),
        },
{
    let amount = ctx.vault.account.lamports;
    transfer(&mut ctx.vault.account, &mut ctx.user.account, amount)
}

/// What closing the vault state account into the user's account leaves in
/// the two: its lamports go to the user, and it becomes an empty system
/// account.
pub open spec fn close_account_spec(user: Account, closed: Account) -> Result<(Account, Account), VaultError> {
    if user.lamports + closed.lamports > u64::MAX {
        Err(VaultError::ArithmeticOverflow)
    } else {
        Ok((Account { lamports: (user.lamports + closed.lamports) as u64, kind: user.kind }, Account::spec_empty()))
    }
}

/// The ledger after a closing, or why it fails: the account checks, the
/// body, the closing of the vault state, and the runtime's rent rule on the
/// user and the vault (the closed vault state is left empty).
pub open spec fn close_spec(m: Map<Seq<u8>, Account>, a: Close, rent: RentExemption) -> Result<Map<Seq<u8>, Account>, VaultError> {
    match load_vault_spec(m, a.user, a.user_is_signer, a.vault, a.vault_state, a.system_program, true) {
        Err(e) => Err(e),
        Ok(ctx) => match close_vault_spec(ctx) {
            Err(e) => Err(e),
            Ok(c) => match close_account_spec(c.user.account, c.vault_state.account) {
                Err(e) => Err(e),
                Ok((u, s)) => if !rent_transition_allowed(m[a.user@], u, rent)
                    || !rent_transition_allowed(m[a.vault@], c.vault.account, rent) {
                    Err(VaultError::InsufficientFundsForRent)
                } else {
                    Ok(m.insert(a.user@, u).insert(a.vault@, c.vault.account).insert(a.vault_state@, s))
                },
            },
        },
    }
}

} // verus!
