//! The four instructions, each as Anchor runs it: the checks that the
//! instruction's account list declares, on the accounts as loaded from the
//! ledger; the instruction body, on those loaded accounts; the runtime's
//! rent rule on the accounts written; and, where all succeed, the write-back
//! of the loaded accounts. An instruction that fails leaves the ledger as it
//! was. Two declared checks are not modelled, as the ledger does not record
//! what they read: every account is taken to be passed writable where the
//! list marks it `mut`, and the system program to be executable.

pub mod close;
pub mod deposit;
pub mod initialize;
pub mod withdraw;

use vstd::prelude::*;

use crate::constants::SYSTEM_PROGRAM_ID;
use crate::error::VaultError;
use crate::ledger::{same_key, Account, AccountKind, Ledger};
use crate::pda::{create_vault_address, create_vault_state_address, vault_address_with_bump, vault_state_address_with_bump};
use crate::state::VaultState;

verus! {

/// The lamports that make an account exempt from rent, for the two sizes of
/// account this program deals with, as the cluster's rent schedule gives them.
#[derive(Clone, Copy, Debug)]
pub struct RentExemption {
    /// For an account without data, such as a vault.
    pub empty_account: u64,
    /// For an account of `8 + VaultState::INIT_SPACE` bytes.
    pub vault_state_account: u64,
}

/// The rent-exempt minimum of an account, where its size is known: a system
/// account holds no data and a vault state account holds `8 +
/// VaultState::INIT_SPACE` bytes; of an account owned by another program
/// nothing is known, and it is taken to be exempt.
pub open spec fn rent_minimum(a: Account, rent: RentExemption) -> Option<u64> {
    match a.kind {
        AccountKind::System => Some(rent.empty_account),
        AccountKind::VaultState(_) => Some(rent.vault_state_account),
        AccountKind::Foreign => None,
    }
}

/// Whether an account holds some lamports, but fewer than its rent-exempt minimum.
pub open spec fn rent_paying(a: Account, rent: RentExemption) -> bool {
    a.lamports > 0 && match rent_minimum(a, rent) {
        Some(min) => a.lamports < min,
        None => false,
    }
}

/// Whether two accounts hold data of the same size.
pub open spec fn same_size(a: Account, b: Account) -> bool {
    (a.kind is System && b.kind is System) || (a.kind is VaultState && b.kind is VaultState)
}

/// The runtime's rule on an account that a transaction writes: afterwards it
/// is empty or rent-exempt, or it was already paying rent before, at the
/// same size, and has not grown.
pub open spec fn rent_transition_allowed(pre: Account, post: Account, rent: RentExemption) -> bool {
    !rent_paying(post, rent) || (rent_paying(pre, rent) && same_size(pre, post) && post.lamports <= pre.lamports)
}

/// Whether the runtime lets a transaction take an account it writes from
/// `pre` to `post` (see `rent_transition_allowed`).
pub fn rent_allows(pre: &Account, post: &Account, rent: &RentExemption) -> (r: bool)
    ensures
        r == rent_transition_allowed(*pre, *post, *rent),
{
    let post_paying = post.lamports > 0 && match post.kind {
        AccountKind::System => post.lamports < rent.empty_account,
        AccountKind::VaultState(_) => post.lamports < rent.vault_state_account,
        AccountKind::Foreign => false,
    };
    if !post_paying {
        return true;
    }
    let pre_paying = pre.lamports > 0 && match pre.kind {
        AccountKind::System => pre.lamports < rent.empty_account,
        AccountKind::VaultState(_) => pre.lamports < rent.vault_state_account,
        AccountKind::Foreign => false,
    };
    let same = match (pre.kind, post.kind) {
        (AccountKind::System, AccountKind::System) => true,
        (AccountKind::VaultState(_), AccountKind::VaultState(_)) => true,
        _ => false,
    };
    pre_paying && same && post.lamports <= pre.lamports
}

/// An account as an instruction sees it: its address and its contents.
#[derive(Clone, Copy, Debug)]
pub struct LoadedAccount {
    pub key: [u8; 32],
    pub account: Account,
}

/// What the system program's transfer of `amount` lamports from `from` to
/// `to` (two different accounts) leaves in them, or why it refuses.
pub open spec fn transfer_spec(from: Account, to: Account, amount: u64) -> Result<(Account, Account), VaultError> {
    if !(from.kind is System) {
        Err(VaultError::InvalidTransferSource)
    } else if from.lamports < amount {
        Err(VaultError::InsufficientFunds)
    } else if to.lamports + amount > u64::MAX {
        Err(VaultError::ArithmeticOverflow)
    } else {
        Ok((
            Account { lamports: (from.lamports - amount) as u64, kind: from.kind },
            Account { lamports: (to.lamports + amount) as u64, kind: to.kind },
        ))
    }
}

/// Moves `amount` lamports from `from` to `to` as the system program does:
/// `from` must be a system account without data that holds at least
/// `amount`, and `to` must not overflow. On failure neither account changes.
pub fn transfer(from: &mut Account, to: &mut Account, amount: u64) -> (r: Result<(), VaultError>)
    ensures
        match transfer_spec(*old(from), *old(to), amount) {
            Ok((f, t)) => r is Ok && *final(from) == f && *final(to) == t,
            Err(e) => r == Err::<(), VaultError>(e) && *final(from) == *old(from) && *final(to) == *old(to),
        },
{
    match from.kind {
        AccountKind::System => {},
        _ => {
            return Err(VaultError::InvalidTransferSource);
        },
    }
    if from.lamports < amount {
        return Err(VaultError::InsufficientFunds);
    }
    if to.lamports > u64::MAX - amount {
        return Err(VaultError::ArithmeticOverflow);
    }
    from.lamports = from.lamports - amount;
    to.lamports = to.lamports + amount;
    Ok(())
}

/// The accounts of an existing vault, loaded and checked: the user, the
/// vault, the vault state account, and the state it holds.
#[derive(Clone, Copy, Debug)]
pub struct VaultContext {
    pub user: LoadedAccount,
    pub vault: LoadedAccount,
    pub vault_state: LoadedAccount,
    pub state: VaultState,
}

/// The checks that `deposit`, `withdraw` and `close` declare on their
/// accounts, as Anchor runs them (each account as it is loaded, in the
/// order of the list, then the seeds constraints): the user signed;
/// the vault is a system account; the vault state account exists and holds
/// a vault state; the account given as the system program is the system
/// program;
/// the vault and the vault state stand at the addresses that `[VAULT_SEED,
/// user, [vault_bump]]` and `[VAULT_STATE_SEED, user, [bump]]` create, with
/// the bump seeds that the state records; last, the accounts are distinct
/// (see `VaultError::AccountsNotDistinct`; the vault state counts only where
/// `state_mut`, that is where the instruction writes it).
pub open spec fn load_vault_spec(
    m: Map<Seq<u8>, Account>,
    user: [u8; 32],
    user_is_signer: bool,
    vault: [u8; 32],
    vault_state: [u8; 32],
    system_program: [u8; 32],
    state_mut: bool,
) -> Result<VaultContext, VaultError> {
    let u = user@;
    let v = vault@;
    let s = vault_state@;
    if !user_is_signer {
        Err(VaultError::AccountNotSigner)
    } else if !(m[v].kind is System) {
        Err(VaultError::AccountNotSystemOwned)
    } else {
        match m[s].kind {
            AccountKind::System => if m[s].lamports == 0 {
                Err(VaultError::AccountNotInitialized)
            } else {
                Err(VaultError::AccountOwnedByWrongProgram)
            },
            AccountKind::Foreign => Err(VaultError::AccountOwnedByWrongProgram),
            AccountKind::VaultState(st) => if system_program@ != SYSTEM_PROGRAM_ID@ {
                Err(VaultError::InvalidProgramId)
            } else if vault_address_with_bump(u, st.vault_bump) != Some(v) {
                Err(VaultError::ConstraintSeeds)
            } else if vault_state_address_with_bump(u, st.bump) != Some(s) {
                Err(VaultError::ConstraintSeeds)
            } else if u == v || (state_mut && (u == s || v == s)) {
                Err(VaultError::AccountsNotDistinct)
            } else {
                Ok(VaultContext {
                    user: LoadedAccount { key: user, account: m[u] },
                    vault: LoadedAccount { key: vault, account: m[v] },
                    vault_state: LoadedAccount { key: vault_state, account: m[s] },
                    state: st,
                })
            },
        }
    }
}

/// The seeds constraint on an account whose bump seed is given: the address
/// that the seeds create must be the account's address; where the seeds
/// create none, or another, the constraint fails.
pub fn check_seeds(created: Option<[u8; 32]>, given: &[u8; 32]) -> (r: Result<(), VaultError>)
    ensures
        r is Ok <==> (created matches Some(address) && address@ == given@),
        r is Err ==> r == Err::<(), VaultError>(VaultError::ConstraintSeeds),
{
    match created {
        Some(address) => if same_key(&address, given) {
            Ok(())
        } else {
            Err(VaultError::ConstraintSeeds)
        },
        None => Err(VaultError::ConstraintSeeds),
    }
}

/// Loads and checks the accounts of an existing vault (see `load_vault_spec`).
pub fn load_vault(
    ledger: &Ledger,
    user: &[u8; 32],
    user_is_signer: bool,
    vault: &[u8; 32],
    vault_state: &[u8; 32],
    system_program: &[u8; 32],
    state_mut: bool,
) -> (r: Result<VaultContext, VaultError>)
    ensures
        r == load_vault_spec(ledger@, *user, user_is_signer, *vault, *vault_state, *system_program, state_mut),
{
    if !user_is_signer {
        return Err(VaultError::AccountNotSigner);
    }
    let v = ledger.get(vault);
    match v.kind {
        AccountKind::System => {},
        _ => {
            return Err(VaultError::AccountNotSystemOwned);
        },
    }
    let s = ledger.get(vault_state);
    let st = match s.kind {
        AccountKind::System => {
            if s.lamports == 0 {
                return Err(VaultError::AccountNotInitialized);
            } else {
                return Err(VaultError::AccountOwnedByWrongProgram);
            }
        },
        AccountKind::Foreign => {
            return Err(VaultError::AccountOwnedByWrongProgram);
        },
        AccountKind::VaultState(st) => st,
    };
    if !same_key(system_program, &SYSTEM_PROGRAM_ID) {
        return Err(VaultError::InvalidProgramId);
    }
    match check_seeds(create_vault_address(user, st.vault_bump), vault) {
        Ok(()) => {},
        Err(e) => {
            return Err(e);
        },
    }
    match check_seeds(create_vault_state_address(user, st.bump), vault_state) {
        Ok(()) => {},
        Err(e) => {
            return Err(e);
        },
    }
    if same_key(user, vault) || (state_mut && (same_key(user, vault_state) || same_key(vault, vault_state))) {
        return Err(VaultError::AccountsNotDistinct);
    }
    let u = ledger.get(user);
    Ok(VaultContext {
        user: LoadedAccount { key: *user, account: u },
        vault: LoadedAccount { key: *vault, account: v },
        vault_state: LoadedAccount { key: *vault_state, account: s },
        state: st,
    })
}

} // verus!
