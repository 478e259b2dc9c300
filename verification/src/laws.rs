//! What holds of the vault across instructions, proved over the instructions'
//! own specifications.

use vstd::prelude::*;

use crate::constants::SYSTEM_PROGRAM_ID;
use crate::error::{ErrorCode, VaultError};
use crate::instructions::close::{close_spec, Close};
use crate::instructions::deposit::{deposit_spec, Deposit};
use crate::instructions::initialize::{initialize_spec, Initialize};
use crate::instructions::withdraw::{withdraw_spec, Withdraw};
use crate::instructions::{load_vault_spec, rent_paying, rent_transition_allowed, RentExemption};
use crate::ledger::{Account, AccountKind, Ledger};
use crate::pda::{vault_address, vault_address_with_bump, vault_state_address, vault_state_address_with_bump};
use crate::state::{
    lemma_from_le_bound, lemma_from_le_bytes, lemma_le_bytes_from, lemma_le_bytes_len, le_bytes, pow256, VaultState,
};

verus! {

/// Whether the accounts of `a` name an existing vault of its user in `m`,
/// as deposits and withdrawals check it.
pub open spec fn vault_ready(m: Map<Seq<u8>, Account>, a: Deposit) -> bool {
    load_vault_spec(m, a.user, a.user_is_signer, a.vault, a.vault_state, a.system_program, false) is Ok
}

/// The withdrawal that names the same accounts as `a`.
pub open spec fn withdrawal_of(a: Deposit) -> Withdraw {
    Withdraw {
        user: a.user,
        user_is_signer: a.user_is_signer,
        vault: a.vault,
        vault_state: a.vault_state,
        system_program: a.system_program,
    }
}

/// The closing that names the same accounts as `a`.
pub open spec fn closing_of(a: Deposit) -> Close {
    Close {
        user: a.user,
        user_is_signer: a.user_is_signer,
        vault: a.vault,
        vault_state: a.vault_state,
        system_program: a.system_program,
    }
}

/// Whether `m` gives an account for every address, as the view of every
/// ledger does.
pub open spec fn covers_all(m: Map<Seq<u8>, Account>) -> bool {
    forall|k: Seq<u8>| #[trigger] m.dom().contains(k)
}

/// The view of a ledger gives an account for every address.
pub proof fn ledger_covers_all(l: &Ledger)
    ensures
        covers_all(l@),
{
    l.lemma_view_total();
}

/// The vault state recorded under `vault_state`, if any.
pub open spec fn recorded_state(m: Map<Seq<u8>, Account>, vault_state: [u8; 32]) -> Option<VaultState> {
    match m[vault_state@].kind {
        AccountKind::VaultState(st) => Some(st),
        _ => None,
    }
}

/// A deposit that succeeds moves exactly `amount` lamports from the user to
/// the vault and changes no other account.
pub proof fn deposit_moves_exactly(
    m: Map<Seq<u8>, Account>,
    a: Deposit,
    amount: u64,
    rent: RentExemption,
    m1: Map<Seq<u8>, Account>,
)
    requires
        deposit_spec(m, a, amount, rent) == Ok::<Map<Seq<u8>, Account>, VaultError>(m1),
    ensures
        m1[a.vault@].lamports == m[a.vault@].lamports + amount,
        m1[a.user@].lamports == m[a.user@].lamports - amount,
        m1[a.vault@].kind == m[a.vault@].kind,
        m1[a.user@].kind == m[a.user@].kind,
        forall|k: Seq<u8>| k != a.user@ && k != a.vault@ ==> #[trigger] m1[k] == m[k],
{
}

/// A deposit succeeds exactly when the accounts name an existing vault of
/// the signing user, the user is a system account holding at least `amount`
/// lamports, the vault's balance does not overflow, and the runtime's rent
/// rule lets both new balances stand.
pub proof fn deposit_succeeds_iff(m: Map<Seq<u8>, Account>, a: Deposit, amount: u64, rent: RentExemption)
    ensures
        deposit_spec(m, a, amount, rent) is Ok <==> (vault_ready(m, a) && m[a.user@].kind is System
            && m[a.user@].lamports >= amount && m[a.vault@].lamports + amount <= u64::MAX
            && rent_transition_allowed(
                m[a.user@],
                Account { lamports: (m[a.user@].lamports - amount) as u64, kind: m[a.user@].kind },
                rent,
            ) && rent_transition_allowed(
                m[a.vault@],
                Account { lamports: (m[a.vault@].lamports + amount) as u64, kind: m[a.vault@].kind },
                rent,
            )),
{
}

/// Successive deposits accumulate in the vault.
pub proof fn deposits_accumulate(
    m: Map<Seq<u8>, Account>,
    a: Deposit,
    x: u64,
    y: u64,
    rent: RentExemption,
    m1: Map<Seq<u8>, Account>,
    m2: Map<Seq<u8>, Account>,
)
    requires
        deposit_spec(m, a, x, rent) == Ok::<Map<Seq<u8>, Account>, VaultError>(m1),
        deposit_spec(m1, a, y, rent) == Ok::<Map<Seq<u8>, Account>, VaultError>(m2),
    ensures
        m2[a.vault@].lamports == m[a.vault@].lamports + x + y,
        m2[a.user@].lamports == m[a.user@].lamports - x - y,
{
    deposit_moves_exactly(m, a, x, rent, m1);
    deposit_moves_exactly(m1, a, y, rent, m2);
}

/// Depositing nothing into an existing vault succeeds and changes nothing.
pub proof fn zero_deposit_changes_nothing(m: Map<Seq<u8>, Account>, a: Deposit, rent: RentExemption)
    requires
        covers_all(m),
        vault_ready(m, a),
        m[a.user@].kind is System,
    ensures
        deposit_spec(m, a, 0, rent) == Ok::<Map<Seq<u8>, Account>, VaultError>(m),
{
    let m1 = m.insert(a.user@, m[a.user@]).insert(a.vault@, m[a.vault@]);
    assert(m1 =~= m);
}

/// A withdrawal that succeeds was signed by the user, moves exactly `amount`
/// lamports from the vault to the user, changes no other account, and moved
/// no more than the limit that the vault state records.
pub proof fn withdraw_moves_exactly(
    m: Map<Seq<u8>, Account>,
    a: Withdraw,
    amount: u64,
    rent: RentExemption,
    m1: Map<Seq<u8>, Account>,
)
    requires
        withdraw_spec(m, a, amount, rent) == Ok::<Map<Seq<u8>, Account>, VaultError>(m1),
    ensures
        a.user_is_signer,
        m1[a.vault@].lamports == m[a.vault@].lamports - amount,
        m1[a.user@].lamports == m[a.user@].lamports + amount,
        m1[a.vault@].kind == m[a.vault@].kind,
        m1[a.user@].kind == m[a.user@].kind,
        forall|k: Seq<u8>| k != a.user@ && k != a.vault@ ==> #[trigger] m1[k] == m[k],
        recorded_state(m, a.vault_state) matches Some(st) && amount <= st.max_withdraw,
{
}

/// A withdrawal from an existing vault above the limit that its state
/// records is refused with `ExceedsMaxWithdraw`, whatever the vault holds.
pub proof fn withdraw_over_limit_refused(m: Map<Seq<u8>, Account>, a: Deposit, amount: u64, rent: RentExemption)
    requires
        vault_ready(m, a),
        recorded_state(m, a.vault_state) matches Some(st) && amount > st.max_withdraw,
    ensures
        withdraw_spec(m, withdrawal_of(a), amount, rent) == Err::<Map<Seq<u8>, Account>, VaultError>(
            VaultError::Program(ErrorCode::ExceedsMaxWithdraw),
        ),
{
}

/// A withdrawal of more than the vault holds fails and so changes nothing.
pub proof fn withdraw_beyond_balance_fails(m: Map<Seq<u8>, Account>, a: Withdraw, amount: u64, rent: RentExemption)
    requires
        amount > m[a.vault@].lamports,
    ensures
        withdraw_spec(m, a, amount, rent) is Err,
{
}

/// Only the user whose key derives a vault can take lamports out of it: a
/// withdrawal that succeeds is signed by its user and names the vault and
/// the vault state that the user's key creates with the bump seeds that the
/// state records.
pub proof fn withdraw_only_by_owner(
    m: Map<Seq<u8>, Account>,
    a: Withdraw,
    amount: u64,
    rent: RentExemption,
    m1: Map<Seq<u8>, Account>,
)
    requires
        withdraw_spec(m, a, amount, rent) == Ok::<Map<Seq<u8>, Account>, VaultError>(m1),
    ensures
        a.user_is_signer,
        recorded_state(m, a.vault_state) matches Some(st) && vault_address_with_bump(a.user@, st.vault_bump) == Some(
            a.vault@,
        ) && vault_state_address_with_bump(a.user@, st.bump) == Some(a.vault_state@),
{
}

/// Whether `x` is neither `user` nor any vault or vault state address that
/// `user`'s key creates with some bump seed.
pub open spec fn outside_reach(user: [u8; 32], x: Seq<u8>) -> bool {
    &&& x != user@
    &&& forall|b: u8| #[trigger] vault_address_with_bump(user@, b) != Some(x)
    &&& forall|b: u8| #[trigger] vault_state_address_with_bump(user@, b) != Some(x)
}

/// Lamports leave a vault, and a vault state changes, only in a call signed
/// by the user whose key creates it: a withdrawal or a closing that succeeds
/// leaves every account that is neither its signing user nor an address that
/// this user's key creates as it was. For another user `u`, `u`'s vault and
/// vault state are such accounts wherever the signer's key creates neither
/// of them, which the address derivation (SHA-256) makes so but which no
/// statement here can prove.
pub proof fn only_owner_moves_vault(
    m: Map<Seq<u8>, Account>,
    a: Deposit,
    amount: u64,
    rent: RentExemption,
    x: Seq<u8>,
)
    requires
        outside_reach(a.user, x),
    ensures
        withdraw_spec(m, withdrawal_of(a), amount, rent) matches Ok(m1) ==> a.user_is_signer && m1[x] == m[x],
        close_spec(m, closing_of(a), rent) matches Ok(m1) ==> a.user_is_signer && m1[x] == m[x],
{
    if let AccountKind::VaultState(st) = m[a.vault_state@].kind {
        assert(vault_address_with_bump(a.user@, st.vault_bump) != Some(x));
        assert(vault_state_address_with_bump(a.user@, st.bump) != Some(x));
    }
}

/// Where no vault state exists under the address given, deposits,
/// withdrawals and closings all fail.
pub proof fn missing_state_refuses_everything(m: Map<Seq<u8>, Account>, a: Deposit, amount: u64, rent: RentExemption)
    requires
        recorded_state(m, a.vault_state) is None,
    ensures
        deposit_spec(m, a, amount, rent) is Err,
        withdraw_spec(m, withdrawal_of(a), amount, rent) is Err,
        close_spec(m, closing_of(a), rent) is Err,
{
}

/// A deposit followed by a withdrawal of the same amount, within the
/// vault's limit, leaves the ledger as it was, where neither the user nor
/// the vault was paying rent before (the runtime refuses to credit an
/// account that stays below its rent-exempt minimum).
pub proof fn deposit_then_withdraw_restores(
    m: Map<Seq<u8>, Account>,
    a: Deposit,
    amount: u64,
    rent: RentExemption,
    m1: Map<Seq<u8>, Account>,
)
    requires
        covers_all(m),
        deposit_spec(m, a, amount, rent) == Ok::<Map<Seq<u8>, Account>, VaultError>(m1),
        recorded_state(m, a.vault_state) matches Some(st) && amount <= st.max_withdraw,
        !rent_paying(m[a.user@], rent),
        !rent_paying(m[a.vault@], rent),
    ensures
        withdraw_spec(m1, withdrawal_of(a), amount, rent) == Ok::<Map<Seq<u8>, Account>, VaultError>(m),
{
    deposit_moves_exactly(m, a, amount, rent, m1);
    assert(m1[a.vault_state@] == m[a.vault_state@]);
    assert(vault_ready(m1, a));
    let m2 = m1.insert(a.user@, m[a.user@]).insert(a.vault@, m[a.vault@]);
    assert(m2 =~= m);
}

/// An initialization that succeeds was signed by the user, records the bump
/// seeds of both derived addresses and `max_withdraw`, funds the vault with
/// the rent-exempt minimum of an account without data, and changes no
/// account but the three it names.
pub proof fn initialize_creates_vault(
    m: Map<Seq<u8>, Account>,
    a: Initialize,
    max_withdraw: u64,
    rent: RentExemption,
    m1: Map<Seq<u8>, Account>,
)
    requires
        initialize_spec(m, a, max_withdraw, rent) == Ok::<Map<Seq<u8>, Account>, VaultError>(m1),
    ensures
        a.user_is_signer,
        vault_address(a.user@) matches Some((v, vb)) && vault_state_address(a.user@) matches Some((s, sb))
            && v == a.vault@ && s == a.vault_state@
            && recorded_state(m1, a.vault_state) == Some(VaultState { vault_bump: vb, bump: sb, max_withdraw }),
        m1[a.vault@].lamports == m[a.vault@].lamports + rent.empty_account,
        m1[a.vault_state@].lamports >= rent.vault_state_account,
        forall|k: Seq<u8>| k != a.user@ && k != a.vault@ && k != a.vault_state@ ==> #[trigger] m1[k] == m[k],
{
}

/// The lamports that creating the vault state takes from the user: its
/// rent-exempt minimum for an account without lamports, or the top-up to
/// that minimum (at least one lamport) for one that holds some.
pub open spec fn state_rent_due(state: Account, rent: u64) -> int {
    let floor: int = if rent == 0 { 1 } else { rent as int };
    if state.lamports == 0 {
        rent as int
    } else if floor > state.lamports {
        floor - state.lamports
    } else {
        0
    }
}

/// An initialization succeeds only where the user signed, the system
/// program is the one given, the vault is a system account, the vault and
/// the vault state stand at the addresses that the user's key derives, no
/// program owns an account at the vault state's address yet, and the user,
/// a system account, can pay both the vault state's rent and the vault's.
/// Where it fails, the ledger is left as it was (see `initialize`).
pub proof fn initialize_needs(m: Map<Seq<u8>, Account>, a: Initialize, max_withdraw: u64, rent: RentExemption)
    ensures
        initialize_spec(m, a, max_withdraw, rent) is Ok ==> {
            &&& a.user_is_signer
            &&& a.system_program@ == SYSTEM_PROGRAM_ID@
            &&& m[a.vault@].kind is System
            &&& vault_address(a.user@) matches Some((v, _)) && v == a.vault@
            &&& vault_state_address(a.user@) matches Some((s, _)) && s == a.vault_state@
            &&& m[a.vault_state@].kind is System
            &&& m[a.user@].kind is System
            &&& m[a.user@].lamports >= state_rent_due(m[a.vault_state@], rent.vault_state_account) + rent.empty_account
        },
{
}

/// What an initialization makes possible does not depend on the limit it
/// records: with the same ledger, accounts and rents, one limit succeeds
/// exactly when any other does, and fails with the same error.
pub proof fn initialize_ignores_limit(m: Map<Seq<u8>, Account>, a: Initialize, x: u64, y: u64, rent: RentExemption)
    ensures
        initialize_spec(m, a, x, rent) is Ok <==> initialize_spec(m, a, y, rent) is Ok,
        initialize_spec(m, a, x, rent) is Err ==> initialize_spec(m, a, x, rent) == initialize_spec(m, a, y, rent),
{
}

/// An initialization succeeds, whatever limit it is given, where the user
/// signed and names the system program, the vault and the vault state stand
/// at the addresses the user's key derives, the three accounts differ and
/// are system accounts, the user can pay the vault state's rent (or its
/// top-up) and the vault's rent, is left empty or rent-exempt, and the
/// vault's balance does not overflow. The vault state then records both
/// bump seeds and the limit, the vault gains its rent, and the user pays.
pub proof fn initialize_succeeds_when(m: Map<Seq<u8>, Account>, a: Initialize, max_withdraw: u64, rent: RentExemption)
    requires
        a.user_is_signer,
        a.system_program@ == SYSTEM_PROGRAM_ID@,
        vault_address(a.user@) is Some,
        vault_address(a.user@).unwrap().0 == a.vault@,
        vault_state_address(a.user@) is Some,
        vault_state_address(a.user@).unwrap().0 == a.vault_state@,
        a.user@ != a.vault@,
        a.user@ != a.vault_state@,
        a.vault@ != a.vault_state@,
        m[a.user@].kind is System,
        m[a.vault@].kind is System,
        m[a.vault_state@].kind is System,
        m[a.user@].lamports >= state_rent_due(m[a.vault_state@], rent.vault_state_account) + rent.empty_account,
        m[a.vault@].lamports + rent.empty_account <= u64::MAX,
        ({
            let left = m[a.user@].lamports - state_rent_due(m[a.vault_state@], rent.vault_state_account)
                - rent.empty_account;
            left == 0 || left >= rent.empty_account
        }),
    ensures
        initialize_spec(m, a, max_withdraw, rent) matches Ok(m1) && {
            &&& recorded_state(m1, a.vault_state) == Some(
                VaultState {
                    vault_bump: vault_address(a.user@).unwrap().1,
                    bump: vault_state_address(a.user@).unwrap().1,
                    max_withdraw,
                },
            )
            &&& m1[a.vault@].lamports == m[a.vault@].lamports + rent.empty_account
            &&& m1[a.vault_state@].lamports == m[a.vault_state@].lamports + state_rent_due(
                m[a.vault_state@],
                rent.vault_state_account,
            )
            &&& m1[a.user@].lamports == m[a.user@].lamports - state_rent_due(
                m[a.vault_state@],
                rent.vault_state_account,
            ) - rent.empty_account
        },
{
}

/// A closing succeeds, whatever limit the vault state records and however
/// much the vault holds, where the accounts name an existing vault of the
/// signing user, the user's new balance does not overflow, and it leaves the
/// user empty or rent-exempt. The user then holds every lamport of the three
/// accounts, and the vault and the vault state are empty system accounts.
pub proof fn close_succeeds_when(m: Map<Seq<u8>, Account>, a: Deposit, rent: RentExemption)
    requires
        load_vault_spec(m, a.user, a.user_is_signer, a.vault, a.vault_state, a.system_program, true) is Ok,
        m[a.user@].lamports + m[a.vault@].lamports + m[a.vault_state@].lamports <= u64::MAX,
        !rent_paying(
            Account {
                lamports: (m[a.user@].lamports + m[a.vault@].lamports + m[a.vault_state@].lamports) as u64,
                kind: m[a.user@].kind,
            },
            rent,
        ),
    ensures
        close_spec(m, closing_of(a), rent) matches Ok(m1) && {
            &&& m1[a.user@] == Account {
                lamports: (m[a.user@].lamports + m[a.vault@].lamports + m[a.vault_state@].lamports) as u64,
                kind: m[a.user@].kind,
            }
            &&& m1[a.vault@] == Account::spec_empty()
            &&& m1[a.vault_state@] == Account::spec_empty()
        },
{
}

/// The account checks of deposits, withdrawals and closings do not look at
/// balances where an account's kind already decides: not the user's, not
/// the vault's (an emptied vault is still the vault), and not the vault
/// state's once it holds a vault state.
pub proof fn vault_checks_ignore_balances(
    m: Map<Seq<u8>, Account>,
    a: Deposit,
    state_mut: bool,
    x: u64,
    y: u64,
    z: u64,
)
    ensures
        load_vault_spec(
            m.insert(a.vault@, Account { lamports: x, kind: m[a.vault@].kind }),
            a.user,
            a.user_is_signer,
            a.vault,
            a.vault_state,
            a.system_program,
            state_mut,
        ) is Ok <==> load_vault_spec(m, a.user, a.user_is_signer, a.vault, a.vault_state, a.system_program, state_mut) is Ok,
        load_vault_spec(
            m.insert(a.user@, Account { lamports: y, kind: m[a.user@].kind }),
            a.user,
            a.user_is_signer,
            a.vault,
            a.vault_state,
            a.system_program,
            state_mut,
        ) is Ok <==> load_vault_spec(m, a.user, a.user_is_signer, a.vault, a.vault_state, a.system_program, state_mut) is Ok,
        m[a.vault_state@].kind is VaultState ==> (load_vault_spec(
            m.insert(a.vault_state@, Account { lamports: z, kind: m[a.vault_state@].kind }),
            a.user,
            a.user_is_signer,
            a.vault,
            a.vault_state,
            a.system_program,
            state_mut,
        ) is Ok <==> load_vault_spec(m, a.user, a.user_is_signer, a.vault, a.vault_state, a.system_program, state_mut) is Ok),
{
}

/// A deposit into an existing vault succeeds however little the vault holds,
/// even nothing, where the user is a system account holding the amount and
/// both new balances are empty or rent-exempt; the vault then grows by
/// exactly the amount.
pub proof fn deposit_succeeds_when(m: Map<Seq<u8>, Account>, a: Deposit, amount: u64, rent: RentExemption)
    requires
        vault_ready(m, a),
        m[a.user@].kind is System,
        m[a.user@].lamports >= amount,
        m[a.vault@].lamports + amount <= u64::MAX,
        m[a.user@].lamports - amount == 0 || m[a.user@].lamports - amount >= rent.empty_account,
        m[a.vault@].lamports + amount == 0 || m[a.vault@].lamports + amount >= rent.empty_account,
    ensures
        deposit_spec(m, a, amount, rent) matches Ok(m1) && m1[a.vault@].lamports == m[a.vault@].lamports + amount
            && m1[a.user@].lamports == m[a.user@].lamports - amount,
{
}

/// A vault cannot be initialized twice: once an initialization succeeds, a
/// second one with the same accounts fails.
pub proof fn initialize_twice_fails(
    m: Map<Seq<u8>, Account>,
    a: Initialize,
    max_withdraw: u64,
    rent: RentExemption,
    m1: Map<Seq<u8>, Account>,
    max_withdraw2: u64,
    rent2: RentExemption,
)
    requires
        initialize_spec(m, a, max_withdraw, rent) == Ok::<Map<Seq<u8>, Account>, VaultError>(m1),
    ensures
        initialize_spec(m1, a, max_withdraw2, rent2) == Err::<Map<Seq<u8>, Account>, VaultError>(VaultError::AccountAlreadyInUse),
{
}

/// A closing that succeeds hands the user every lamport of the vault and of
/// the vault state account, leaves both empty, and changes no other account;
/// afterwards the vault refuses deposits.
pub proof fn close_returns_everything(
    m: Map<Seq<u8>, Account>,
    a: Deposit,
    rent: RentExemption,
    m1: Map<Seq<u8>, Account>,
    amount: u64,
    rent2: RentExemption,
)
    requires
        close_spec(m, closing_of(a), rent) == Ok::<Map<Seq<u8>, Account>, VaultError>(m1),
    ensures
        m1[a.user@].lamports == m[a.user@].lamports + m[a.vault@].lamports + m[a.vault_state@].lamports,
        m1[a.vault@] == Account::spec_empty(),
        m1[a.vault_state@] == Account::spec_empty(),
        forall|k: Seq<u8>| k != a.user@ && k != a.vault@ && k != a.vault_state@ ==> #[trigger] m1[k] == m[k],
        deposit_spec(m1, a, amount, rent2) == Err::<Map<Seq<u8>, Account>, VaultError>(VaultError::AccountNotInitialized),
{
}

/// Reading the data that a vault state is written as gives that vault state back.
pub proof fn state_data_roundtrip(st: VaultState)
    ensures
        VaultState::spec_deserialize(st.spec_serialized()) == Ok::<VaultState, VaultError>(st),
{
    let d = st.spec_serialized();
    lemma_le_bytes_len(st.max_withdraw as nat, 8);
    assert(pow256(8) == 0x10000000000000000) by {
        reveal_with_fuel(pow256, 9);
    }
    lemma_from_le_bytes(st.max_withdraw as nat, 8);
    assert(d.subrange(0, 8) =~= VaultState::DISCRIMINATOR@);
    assert(d.subrange(10, 18) =~= le_bytes(st.max_withdraw as nat, 8));
}

/// Account data that reads as a vault state begins with exactly the bytes
/// that this vault state is written as.
pub proof fn state_data_determined(data: Seq<u8>, st: VaultState)
    requires
        VaultState::spec_deserialize(data) == Ok::<VaultState, VaultError>(st),
    ensures
        data.subrange(0, 18) == st.spec_serialized(),
{
    let tail = data.subrange(10, 18);
    lemma_from_le_bound(tail);
    assert(pow256(8) == 0x10000000000000000) by {
        reveal_with_fuel(pow256, 9);
    }
    lemma_le_bytes_from(tail);
    assert(data.subrange(0, 18) =~= data.subrange(0, 8) + seq![data[8], data[9]] + tail);
}

} // verus!
