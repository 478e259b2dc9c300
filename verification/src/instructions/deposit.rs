use vstd::prelude::*;

use crate::error::VaultError;
use crate::instructions::{load_vault_spec, rent_transition_allowed, transfer, transfer_spec, LoadedAccount, RentExemption, VaultContext};
use crate::ledger::Account;

verus! {

/// The accounts a deposit names: the signing user, the user's vault and the
/// user's vault state.
#[derive(Clone, Copy, Debug)]
pub struct Deposit {
    pub user: [u8; 32],
    /// Whether the user signed the transaction.
    pub user_is_signer: bool,
    pub vault: [u8; 32],
    pub vault_state: [u8; 32],
    /// The account given as the system program.
    pub system_program: [u8; 32],
}

/// What the body of a deposit leaves in the loaded accounts: `amount`
/// lamports moved from the user to the vault.
pub open spec fn deposit_lamports_spec(ctx: VaultContext, amount: u64) -> Result<VaultContext, VaultError> {
    match transfer_spec(ctx.user.account, ctx.vault.account, amount) {
        Ok((u, v)) => Ok(VaultContext {
            user: LoadedAccount { key: ctx.user.key, account: u },
            vault: LoadedAccount { key: ctx.vault.key, account: v },
            vault_state: ctx.vault_state,
            state: ctx.state,
        }),
        Err(e) => Err(e),
    }
}

/// The body of a deposit: moves `amount` lamports from the user to the vault.
pub fn deposit_lamports(ctx: &mut VaultContext, amount: u64) -> (r: Result<(), VaultError>)
    ensures
        match deposit_lamports_spec(*old(ctx), amount) {
            Ok(c) => r is Ok && *final(ctx) == c,
            Err(e) => r == Err::<(), VaultError>(e) && *final(ctx) == *old(ctx),
        },
{
    transfer(&mut ctx.user.account, &mut ctx.vault.account, amount)
}

/// The ledger after a deposit of `amount` lamports, or why it fails: the
/// account checks, the body, and the runtime's rent rule on the user and the
/// vault.
pub open spec fn deposit_spec(m: Map<Seq<u8>, Account>, a: Deposit, amount: u64, rent: RentExemption) -> Result<Map<Seq<u8>, Account>, VaultError> {
    match load_vault_spec(m, a.user, a.user_is_signer, a.vault, a.vault_state, a.system_program, false) {
        Err(e) => Err(e),
        Ok(ctx) => match deposit_lamports_spec(ctx, amount) {
            Err(e) => Err(e),
            Ok(c) => if !rent_transition_allowed(m[a.user@], c.user.account, rent)
                || !rent_transition_allowed(m[a.vault@], c.vault.account, rent) {
                Err(VaultError::InsufficientFundsForRent)
            } else {
                Ok(m.insert(a.user@, c.user.account).insert(a.vault@, c.vault.account))
            },
        },
    }
}

} // verus!
