# lamports_vault

A vault that holds lamports for one user, verified with Verus.

- `src/` is the verified library: the vault state and its account data
  layout (`state.rs`), the program's errors (`error.rs`), the derivation of
  the vault and vault state addresses (`pda.rs`), a ledger of accounts
  (`ledger.rs`), the four instructions with the checks their account lists
  declare (`instructions/`, entry points in `lib.rs`), and the properties
  that hold across instructions (`laws.rs`).
- `app/` is the Anchor program around it: entry points, account lists and
  account types, the rent sysvar, and the system-program transfers that the
  library decides.
- `tests/` runs the library on concrete ledgers.
