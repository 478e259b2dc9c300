use vstd::prelude::*;

use crate::constants::ANCHOR_DISCRIMINATOR_LENGTH;
use crate::error::VaultError;

verus! {

/// What the program records for one vault.
#[derive(Clone, Copy, Debug, PartialEq, Eq, Structural)]
pub struct VaultState {
    /// Bump seed of the vault address.
    pub vault_bump: u8,
    /// Bump seed of the vault state address.
    pub bump: u8,
    /// The largest number of lamports one withdrawal may move.
    pub max_withdraw: u64,
}

/// `256` to the power `n`.
pub open spec fn pow256(n: nat) -> nat
    decreases n,
{
    if n == 0 {
        1
    } else {
        256 * pow256((n - 1) as nat)
    }
}

/// The `n` low bytes of `x`, least significant first.
pub open spec fn le_bytes(x: nat, n: nat) -> Seq<u8>
    decreases n,
{
    if n == 0 {
        Seq::empty()
    } else {
        seq![(x % 256) as u8] + le_bytes(x / 256, (n - 1) as nat)
    }
}

/// The number whose bytes, least significant first, are `s`.
pub open spec fn from_le(s: Seq<u8>) -> nat
    decreases s.len(),
{
    if s.len() == 0 {
        0
    } else {
        (s[0] + 256 * from_le(s.drop_first())) as nat
    }
}

impl VaultState {
    /// Bytes that the fields take once serialized.
    pub const INIT_SPACE: usize = 10;

    /// The type tag that begins the data of a vault state account: the first
    /// eight bytes of the SHA-256 digest of `account:VaultState`.
    pub const DISCRIMINATOR: [u8; 8] = [228, 196, 82, 165, 98, 210, 235, 152];

    /// Size of a vault state account: the type tag and the fields.
    pub const SPACE: usize = 18;

    /// The data of a vault state account: the type tag, the two bump seeds,
    /// and `max_withdraw` in eight bytes, least significant first.
    pub open spec fn spec_serialized(self) -> Seq<u8> {
        VaultState::DISCRIMINATOR@ + seq![self.vault_bump, self.bump] + le_bytes(self.max_withdraw as nat, 8)
    }

    /// The vault state that account data holds, or why it holds none: data
    /// shorter than the type tag, a different type tag, or too few bytes
    /// after it. Bytes past the fields are ignored.
    pub open spec fn spec_deserialize(data: Seq<u8>) -> Result<VaultState, VaultError> {
        if data.len() < 8 {
            Err(VaultError::AccountDiscriminatorNotFound)
        } else if data.subrange(0, 8) != VaultState::DISCRIMINATOR@ {
            Err(VaultError::AccountDiscriminatorMismatch)
        } else if data.len() < 18 {
            Err(VaultError::AccountDidNotDeserialize)
        } else {
            Ok(VaultState { vault_bump: data[8], bump: data[9], max_withdraw: from_le(data.subrange(10, 18)) as u64 })
        }
    }

    /// Writes the vault state as account data (see `spec_serialized`).
    pub fn try_serialize(&self) -> (r: Vec<u8>)
        ensures
            r@ == self.spec_serialized(),
            r@.len() == ANCHOR_DISCRIMINATOR_LENGTH + VaultState::INIT_SPACE,
    {
        let disc = VaultState::DISCRIMINATOR;
        let mut out: Vec<u8> = Vec::new();
        let mut i: usize = 0;
        while i < 8
            invariant
                i <= 8,
                disc@ == VaultState::DISCRIMINATOR@,
                disc@.len() == 8,
                out@ == disc@.subrange(0, i as int),
            decreases 8 - i,
        {
            out.push(disc[i]);
            i += 1;
            assert(out@ =~= disc@.subrange(0, i as int));
        }
        assert(disc@.subrange(0, 8) =~= disc@);
        out.push(self.vault_bump);
        out.push(self.bump);
        assert(out@ =~= VaultState::DISCRIMINATOR@ + seq![self.vault_bump, self.bump]);
        let mut x: u64 = self.max_withdraw;
        let mut k: usize = 0;
        assert(out@ + le_bytes(x as nat, 8) == self.spec_serialized());
        while k < 8
            invariant
                k <= 8,
                out@ + le_bytes(x as nat, (8 - k) as nat) == self.spec_serialized(),
            decreases 8 - k,
        {
            let ghost before = out@;
            let ghost xb = x;
            assert(le_bytes(xb as nat, (8 - k) as nat) == seq![(xb % 256) as u8] + le_bytes(xb as nat / 256, (8 - k - 1) as nat));
            out.push((x % 256) as u8);
            x = x / 256;
            k += 1;
            assert(out@ + le_bytes(x as nat, (8 - k) as nat) =~= before + (seq![(xb % 256) as u8] + le_bytes(xb as nat / 256, (8 - k) as nat)));
        }
        proof {
            lemma_le_bytes_len(self.max_withdraw as nat, 8);
        }
        out
    }

    /// Reads a vault state from account data (see `spec_deserialize`).
    pub fn try_deserialize(data: &[u8]) -> (r: Result<VaultState, VaultError>)
        ensures
            r == VaultState::spec_deserialize(data@),
    {
        let disc = VaultState::DISCRIMINATOR;
        if data.len() < 8 {
            return Err(VaultError::AccountDiscriminatorNotFound);
        }
        let mut i: usize = 0;
        while i < 8
            invariant
                i <= 8,
                data@.len() >= 8,
                disc@ == VaultState::DISCRIMINATOR@,
                disc@.len() == 8,
                forall|j: int| 0 <= j < i ==> data@[j] == disc@[j],
            decreases 8 - i,
        {
            if data[i] != disc[i] {
                assert(data@.subrange(0, 8)[i as int] != disc@[i as int]);
                return Err(VaultError::AccountDiscriminatorMismatch);
            }
            i += 1;
        }
        assert(data@.subrange(0, 8) =~= disc@);
        if data.len() < 18 {
            return Err(VaultError::AccountDidNotDeserialize);
        }
        let mut acc: u64 = 0;
        let mut k: usize = 18;
        proof {
            assert(data@.subrange(18, 18) =~= Seq::<u8>::empty());
            reveal_with_fuel(pow256, 8);
        }
        while k > 10
            invariant
                10 <= k <= 18,
                data@.len() >= 18,
                acc as nat == from_le(data@.subrange(k as int, 18)),
                acc < pow256((18 - k) as nat),
            decreases k,
        {
            proof {
                lemma_pow256_mono((18 - k) as nat, 7);
                assert(pow256(7) == 0x100000000000000) by {
                    reveal_with_fuel(pow256, 8);
                }
            }
            let ghost old_acc = acc;
            k -= 1;
            acc = acc * 256 + data[k] as u64;
            assert(data@.subrange(k as int, 18).drop_first() =~= data@.subrange(k + 1, 18));
        }
        Ok(VaultState { vault_bump: data[8], bump: data[9], max_withdraw: acc })
    }
}

/// `pow256` does not decrease.
pub proof fn lemma_pow256_mono(a: nat, b: nat)
    requires
        a <= b,
    ensures
        pow256(a) <= pow256(b),
    decreases b,
{
    if a < b {
        lemma_pow256_mono(a, (b - 1) as nat);
    }
}

/// Reading back the bytes of a number gives the number.
pub proof fn lemma_from_le_bytes(x: nat, n: nat)
    requires
        x < pow256(n),
    ensures
        from_le(le_bytes(x, n)) == x,
    decreases n,
{
    if n > 0 {
        lemma_from_le_bytes(x / 256, (n - 1) as nat);
        let t = le_bytes(x / 256, (n - 1) as nat);
        assert((seq![(x % 256) as u8] + t).drop_first() =~= t);
    }
}

/// Writing out a number read from bytes gives the bytes back.
pub proof fn lemma_le_bytes_from(s: Seq<u8>)
    ensures
        le_bytes(from_le(s), s.len()) == s,
    decreases s.len(),
{
    if s.len() > 0 {
        lemma_le_bytes_from(s.drop_first());
        let r = from_le(s.drop_first());
        let x = from_le(s);
        assert(x == s[0] + 256 * r);
        assert(x % 256 == s[0] as nat);
        assert(x / 256 == r);
        assert(le_bytes(x, s.len()) =~= seq![s[0]] + s.drop_first());
        assert(seq![s[0]] + s.drop_first() =~= s);
    }
}

/// A number below `256^n` reads back from its bytes below `256^n`.
pub proof fn lemma_from_le_bound(s: Seq<u8>)
    ensures
        from_le(s) < pow256(s.len()),
    decreases s.len(),
{
    if s.len() > 0 {
        lemma_from_le_bound(s.drop_first());
    }
}

/// `le_bytes(x, n)` has `n` bytes.
pub proof fn lemma_le_bytes_len(x: nat, n: nat)
    ensures
        le_bytes(x, n).len() == n,
    decreases n,
{
    if n > 0 {
        lemma_le_bytes_len(x / 256, (n - 1) as nat);
    }
}

} // verus!
