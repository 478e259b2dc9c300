use vstd::prelude::*;

use crate::error::VaultError;
use crate::constants::SYSTEM_PROGRAM_ID;
use crate::instructions::{rent_transition_allowed, transfer, transfer_spec, LoadedAccount, RentExemption};
use crate::ledger::{same_key, Account, AccountKind, Ledger};
use crate::pda::{
    canonical_vault_bump, canonical_vault_state_bump, find_vault_address, find_vault_state_address, vault_address, vault_address_with_bump, vault_state_address,
    vault_state_address_with_bump,
};
use crate::state::VaultState;

verus! {

/// The accounts an initialization names: the signing user, who pays; the
/// user's vault; and the user's vault state, which the instruction creates.
#[derive(Clone, Copy, Debug)]
pub struct Initialize {
    pub user: [u8; 32],
    /// Whether the user signed the transaction.
    pub user_is_signer: bool,
    pub vault: [u8; 32],
    pub vault_state: [u8; 32],
    /// The account given as the system program.
    pub system_program: [u8; 32],
}

/// The bump seeds found for the vault and the vault state.
#[derive(Clone, Copy, Debug)]
pub struct InitializeBumps {
    pub vault: u8,
    pub vault_state: u8,
}

/// The accounts of an initialization, loaded and checked, with the bump
/// seeds that their addresses were derived with.
#[derive(Clone, Copy, Debug)]
pub struct InitializeContext {
    pub user: LoadedAccount,
    pub vault: LoadedAccount,
    pub vault_state: LoadedAccount,
    pub bumps: InitializeBumps,
}

/// The vault state as it reads right after its account is created: all zero.
pub open spec fn blank_state() -> VaultState {
    VaultState { vault_bump: 0, bump: 0, max_withdraw: 0 }
}

/// What creating the vault state account, paid for by `payer`, leaves in the
/// two accounts, or why it fails. An account without lamports is created
/// with `rent` lamports; one that already holds lamports is topped up to
/// `rent` (at least one lamport). Either way it must be a system account
/// without data, and afterwards it holds a blank vault state.
pub open spec fn create_state_spec(payer: Account, target: Account, rent: u64) -> Result<(Account, Account), VaultError> {
    let floor: u64 = if rent == 0 { 1 } else { rent };
    let created = |t: Account| Account { lamports: t.lamports, kind: AccountKind::VaultState(blank_state()) };
    if !(target.kind is System) {
        Err(VaultError::AccountAlreadyInUse)
    } else if target.lamports == 0 {
        match transfer_spec(payer, target, rent) {
            Err(e) => Err(e),
            Ok((p, t)) => Ok((p, created(t))),
        }
    } else if floor > target.lamports {
        match transfer_spec(payer, target, (floor - target.lamports) as u64) {
            Err(e) => Err(e),
            Ok((p, t)) => Ok((p, created(t))),
        }
    } else {
        Ok((payer, created(target)))
    }
}

fn create_state(payer: &mut Account, target: &mut Account, rent: u64) -> (r: Result<(), VaultError>)
    ensures
        match create_state_spec(*old(payer), *old(target), rent) {
            Ok((p, t)) => r is Ok && *final(payer) == p && *final(target) == t,
            Err(e) => r == Err::<(), VaultError>(e) && *final(payer) == *old(payer) && *final(target) == *old(target),
        },
{
    match target.kind {
        AccountKind::System => {},
        _ => {
            return Err(VaultError::AccountAlreadyInUse);
        },
    }
    let floor: u64 = if rent == 0 { 1 } else { rent };
    if target.lamports == 0 {
        match transfer(payer, target, rent) {
            Ok(()) => {},
            Err(e) => {
                return Err(e);
            },
        }
    } else if floor > target.lamports {
        let top_up = floor - target.lamports;
        match transfer(payer, target, top_up) {
            Ok(()) => {},
            Err(e) => {
                return Err(e);
            },
        }
    }
    target.kind = AccountKind::VaultState(VaultState { vault_bump: 0, bump: 0, max_withdraw: 0 });
    Ok(())
}

/// The checks that an initialization declares on its accounts, and the
/// creation of the vault state, as Anchor runs them: first each account as
/// it is loaded, in the order of the list: the user signed, the vault is a
/// system account, the account given as the system program is the system
/// program; then the vault state, which is created: it must stand at the
/// address that `[VAULT_STATE_SEED, user]` derives, be another account than
/// the user, and the user pays its rent; last the vault's seeds constraint:
/// it must stand at the address that `[VAULT_SEED, user]` derives, and be
/// another account than the user and the vault state (see
/// `VaultError::AccountsNotDistinct`).
pub open spec fn initialize_accounts_spec(
    m: Map<Seq<u8>, Account>,
    a: Initialize,
    rent: RentExemption,
) -> Result<InitializeContext, VaultError> {
    let u = a.user@;
    let v = a.vault@;
    let s = a.vault_state@;
    if !a.user_is_signer {
        Err(VaultError::AccountNotSigner)
    } else if !(m[v].kind is System) {
        Err(VaultError::AccountNotSystemOwned)
    } else if a.system_program@ != SYSTEM_PROGRAM_ID@ {
        Err(VaultError::InvalidProgramId)
    } else {
        match vault_state_address(u) {
            None => Err(VaultError::NoViableBump),
            Some((sa, sb)) => if sa != s {
                Err(VaultError::ConstraintSeeds)
            } else if u == s {
                Err(VaultError::AccountsNotDistinct)
            } else {
                match create_state_spec(m[u], m[s], rent.vault_state_account) {
                    Err(e) => Err(e),
                    Ok((pu, ps)) => match vault_address(u) {
                        None => Err(VaultError::NoViableBump),
                        Some((va, vb)) => if va != v {
                            Err(VaultError::ConstraintSeeds)
                        } else if u == v || v == s {
                            Err(VaultError::AccountsNotDistinct)
                        } else {
                            Ok(InitializeContext {
                                user: LoadedAccount { key: a.user, account: pu },
                                vault: LoadedAccount { key: a.vault, account: m[v] },
                                vault_state: LoadedAccount { key: a.vault_state, account: ps },
                                bumps: InitializeBumps { vault: vb, vault_state: sb },
                            })
                        },
                    },
                }
            },
        }
    }
}

/// Loads and checks the accounts of an initialization and creates the vault
/// state account (see `initialize_accounts_spec`). The ledger is not written.
/// The bump seeds found are the largest that create the two addresses.
pub fn try_accounts(ledger: &Ledger, accounts: &Initialize, rent: &RentExemption) -> (r: Result<InitializeContext, VaultError>)
    ensures
        r == initialize_accounts_spec(ledger@, *accounts, *rent),
        r matches Ok(c) ==> vault_address_with_bump(accounts.user@, c.bumps.vault) == Some(accounts.vault@)
            && vault_state_address_with_bump(accounts.user@, c.bumps.vault_state) == Some(accounts.vault_state@)
            && canonical_vault_bump(accounts.user@, c.bumps.vault)
            && canonical_vault_state_bump(accounts.user@, c.bumps.vault_state),
{
    if !accounts.user_is_signer {
        return Err(VaultError::AccountNotSigner);
    }
    let v = ledger.get(&accounts.vault);
    match v.kind {
        AccountKind::System => {},
        _ => {
            return Err(VaultError::AccountNotSystemOwned);
        },
    }
    if !same_key(&accounts.system_program, &SYSTEM_PROGRAM_ID) {
        return Err(VaultError::InvalidProgramId);
    }
    let state_bump = match find_vault_state_address(&accounts.user) {
        None => {
            return Err(VaultError::NoViableBump);
        },
        Some((sa, sb)) => {
            if !same_key(&sa, &accounts.vault_state) {
                return Err(VaultError::ConstraintSeeds);
            }
            sb
        },
    };
    if same_key(&accounts.user, &accounts.vault_state) {
        return Err(VaultError::AccountsNotDistinct);
    }
    let mut u = ledger.get(&accounts.user);
    let mut s = ledger.get(&accounts.vault_state);
    match create_state(&mut u, &mut s, rent.vault_state_account) {
        Ok(()) => {},
        Err(e) => {
            return Err(e);
        },
    }
    let vault_bump = match find_vault_address(&accounts.user) {
        None => {
            return Err(VaultError::NoViableBump);
        },
        Some((va, vb)) => {
            if !same_key(&va, &accounts.vault) {
                return Err(VaultError::ConstraintSeeds);
            }
            vb
        },
    };
    if same_key(&accounts.user, &accounts.vault) || same_key(&accounts.vault, &accounts.vault_state) {
        return Err(VaultError::AccountsNotDistinct);
    }
    Ok(InitializeContext {
        user: LoadedAccount { key: accounts.user, account: u },
        vault: LoadedAccount { key: accounts.vault, account: v },
        vault_state: LoadedAccount { key: accounts.vault_state, account: s },
        bumps: InitializeBumps { vault: vault_bump, vault_state: state_bump },
    })
}

/// What the body of an initialization leaves in the loaded accounts: the
/// vault funded by the user with the rent-exempt minimum of an account
/// without data, and the vault state holding the two bump seeds and
/// `max_withdraw`.
pub open spec fn initialize_vault_spec(ctx: InitializeContext, max_withdraw: u64, rent: RentExemption) -> Result<InitializeContext, VaultError> {
    match transfer_spec(ctx.user.account, ctx.vault.account, rent.empty_account) {
        Err(e) => Err(e),
        Ok((u, v)) => Ok(InitializeContext {
            user: LoadedAccount { key: ctx.user.key, account: u },
            vault: LoadedAccount { key: ctx.vault.key, account: v },
            vault_state: LoadedAccount {
                key: ctx.vault_state.key,
                account: Account {
                    lamports: ctx.vault_state.account.lamports,
                    kind: AccountKind::VaultState(VaultState {
                        vault_bump: ctx.bumps.vault,
                        bump: ctx.bumps.vault_state,
                        max_withdraw,
                    }),
                },
            },
            bumps: ctx.bumps,
        }),
    }
}

/// The body of an initialization: the user funds the vault with the
/// rent-exempt minimum of an account without data, and the vault state
/// records the bump seeds of both addresses and `max_withdraw`.
pub fn initialize_vault(ctx: &mut InitializeContext, max_withdraw: u64, rent: &RentExemption) -> (r: Result<(), VaultError>)
    ensures
        match initialize_vault_spec(*old(ctx), max_withdraw, *rent) {
            Ok(c) => r is Ok && *final(ctx) == c,
            Err(e) => r == Err::<(), VaultError>(e) && *final(ctx) == *old(ctx),
        },
{
    match transfer(&mut ctx.user.account, &mut ctx.vault.account, rent.empty_account) {
        Ok(()) => {},
        Err(e) => {
            return Err(e);
        },
    }
    ctx.vault_state.account.kind = AccountKind::VaultState(VaultState {
        vault_bump: ctx.bumps.vault,
        bump: ctx.bumps.vault_state,
        max_withdraw,
    });
    Ok(())
}

/// The ledger after an initialization, or why it fails: the account
/// checks and the creation of the vault state, the body, and the runtime's
/// rent rule on the three accounts.
pub open spec fn initialize_spec(
    m: Map<Seq<u8>, Account>,
    a: Initialize,
    max_withdraw: u64,
    rent: RentExemption,
) -> Result<Map<Seq<u8>, Account>, VaultError> {
    match initialize_accounts_spec(m, a, rent) {
        Err(e) => Err(e),
        Ok(ctx) => match initialize_vault_spec(ctx, max_withdraw, rent) {
            Err(e) => Err(e),
            Ok(c) => if !rent_transition_allowed(m[a.user@], c.user.account, rent)
                || !rent_transition_allowed(m[a.vault@], c.vault.account, rent)
                || !rent_transition_allowed(m[a.vault_state@], c.vault_state.account, rent) {
                Err(VaultError::InsufficientFundsForRent)
            } else {
                Ok(m.insert(a.user@, c.user.account).insert(a.vault@, c.vault.account).insert(
                    a.vault_state@,
                    c.vault_state.account,
                ))
            },
        },
    }
}

} // verus!
