use vstd::prelude::*;

verus! {

/// The errors that the program itself declares.
#[derive(Clone, Copy, Debug, PartialEq, Eq, Structural)]
pub enum ErrorCode {
    CustomError,
    ExceedsMaxWithdraw,
}

impl ErrorCode {
    /// The number the program reports for the error.
    pub open spec fn spec_code(self) -> u32 {
        match self {
            ErrorCode::CustomError => 6000,
            ErrorCode::ExceedsMaxWithdraw => 6001,
        }
    }

    /// The number the program reports for the error: the errors are numbered
    /// from 6000 in the order of their declaration.
    pub fn code(&self) -> (r: u32)
        ensures
            r == self.spec_code(),
    {
        match self {
            ErrorCode::CustomError => 6000,
            ErrorCode::ExceedsMaxWithdraw => 6001,
        }
    }

    /// The message that goes with the error.
    pub fn message(&self) -> (r: &'static str)
        ensures
            r@ == (match self {
                ErrorCode::CustomError => "Custom error message"@,
                ErrorCode::ExceedsMaxWithdraw =>
                    "Requested amount exceeds the vault's maximum withdrawal limit"@,
            }),
    {
        match self {
            ErrorCode::CustomError => "Custom error message",
            ErrorCode::ExceedsMaxWithdraw => "Requested amount exceeds the vault's maximum withdrawal limit",
        }
    }
}

/// Why an instruction failed: an error of the program, a violated account
/// constraint, or a refusal of the system program.
#[derive(Clone, Copy, Debug, PartialEq, Eq, Structural)]
pub enum VaultError {
    /// An error that the program itself raises.
    Program(ErrorCode),
    /// The user did not sign.
    AccountNotSigner,
    /// The account given as the system program is not the system program.
    InvalidProgramId,
    /// An account's address is not the one its seeds derive, or the stored bump is not the derived one.
    ConstraintSeeds,
    /// Two of the accounts named, of which one pays or is written, are the same
    /// account, though each stands at the address its checks ask for. On a
    /// cluster no such call gets that far, since the user signs with a key on
    /// the ed25519 curve while the vault and the vault state are program
    /// addresses off it, derived from different seeds; here any 32 bytes are
    /// an address, and such a call is refused once the address checks have
    /// passed, before any account is written.
    AccountsNotDistinct,
    /// The account that should hold a vault state is owned by another program.
    AccountOwnedByWrongProgram,
    /// The account data is shorter than the type tag.
    AccountDiscriminatorNotFound,
    /// The account data does not begin with the vault state's type tag.
    AccountDiscriminatorMismatch,
    /// The account data is too short for the vault state's fields.
    AccountDidNotDeserialize,
    /// The account that should be a system account is not owned by the system program.
    AccountNotSystemOwned,
    /// The vault state account does not exist yet.
    AccountNotInitialized,
    /// No bump seed makes the seeds yield a program address.
    NoViableBump,
    /// The account to be created already belongs to a program or holds data.
    AccountAlreadyInUse,
    /// The account that pays holds data or is not a system account.
    InvalidTransferSource,
    /// The paying account holds fewer lamports than it must move.
    InsufficientFunds,
    /// After the instruction an account that it writes would hold some
    /// lamports but fewer than its rent-exempt minimum, having held none or
    /// at least that minimum before, or having grown or changed size; the
    /// runtime refuses such a transaction.
    InsufficientFundsForRent,
    /// A balance would exceed the largest number of lamports an account can hold.
    ArithmeticOverflow,
}

impl VaultError {
    /// The error number, where the program or its account checks define one.
    pub open spec fn spec_code(self) -> Option<u32> {
        match self {
            VaultError::Program(e) => Some(e.spec_code()),
            VaultError::ConstraintSeeds => Some(2006),
            VaultError::AccountDiscriminatorNotFound => Some(3001),
            VaultError::AccountDiscriminatorMismatch => Some(3002),
            VaultError::AccountDidNotDeserialize => Some(3003),
            VaultError::AccountOwnedByWrongProgram => Some(3007),
            VaultError::InvalidProgramId => Some(3008),
            VaultError::AccountNotSigner => Some(3010),
            VaultError::AccountNotSystemOwned => Some(3011),
            VaultError::AccountNotInitialized => Some(3012),
            _ => None,
        }
    }

    /// The error number, where the program or its account checks define one.
    pub fn code(&self) -> (r: Option<u32>)
        ensures
            r == self.spec_code(),
    {
        match self {
            VaultError::Program(e) => Some(e.code()),
            VaultError::ConstraintSeeds => Some(2006),
            VaultError::AccountDiscriminatorNotFound => Some(3001),
            VaultError::AccountDiscriminatorMismatch => Some(3002),
            VaultError::AccountDidNotDeserialize => Some(3003),
            VaultError::AccountOwnedByWrongProgram => Some(3007),
            VaultError::InvalidProgramId => Some(3008),
            VaultError::AccountNotSigner => Some(3010),
            VaultError::AccountNotSystemOwned => Some(3011),
            VaultError::AccountNotInitialized => Some(3012),
            _ => None,
        }
    }
}

} // verus!
