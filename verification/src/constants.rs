use vstd::prelude::*;

verus! {

/// First seed of the vault address: `b"vault"`.
pub const VAULT_SEED: [u8; 5] = [118, 97, 117, 108, 116];

/// First seed of the vault state address: `b"vault_state"`.
pub const VAULT_STATE_SEED: [u8; 11] = [118, 97, 117, 108, 116, 95, 115, 116, 97, 116, 101];

/// Length of the type tag that precedes the data of every account of this program.
pub const ANCHOR_DISCRIMINATOR_LENGTH: usize = 8;

/// The program's address, `9AvGuh5C8cYcYU7RwwWQU9iDFqWpjQ9MnGZ8cfbkJPLc` in base58.
pub const ID: [u8; 32] = [
    121, 103, 245, 202, 63, 56, 161, 143, 190, 43, 231, 104, 51, 89, 175, 228,
    78, 196, 128, 229, 234, 206, 151, 236, 187, 165, 196, 29, 147, 21, 59, 33,
];

/// The system program's address, `11111111111111111111111111111111` in base58.
pub const SYSTEM_PROGRAM_ID: [u8; 32] = [
    0, 0, 0, 0, 0, 0, 0, 0, 0, 0, 0, 0, 0, 0, 0, 0,
    0, 0, 0, 0, 0, 0, 0, 0, 0, 0, 0, 0, 0, 0, 0, 0,
];

/// The program's address.
pub fn id() -> (r: [u8; 32])
    ensures
        r == ID,
{
    ID
}

} // verus!
