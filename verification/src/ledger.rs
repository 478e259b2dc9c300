use vstd::prelude::*;

use crate::error::VaultError;
use crate::state::VaultState;

verus! {

/// Who owns an account and what its data holds, as far as this program tells apart.
#[derive(Clone, Copy, Debug, PartialEq, Eq, Structural)]
pub enum AccountKind {
    /// Owned by the system program and holding no data: a wallet, or a vault.
    System,
    /// Owned by this program and holding a vault state.
    VaultState(VaultState),
    /// Owned by any other program.
    Foreign,
}

/// One account of the ledger: its balance and its kind.
#[derive(Clone, Copy, Debug, PartialEq, Eq, Structural)]
pub struct Account {
    pub lamports: u64,
    pub kind: AccountKind,
}

impl Account {
    /// An address that nothing was ever sent to: a system account with no lamports.
    pub open spec fn spec_empty() -> Account {
        Account { lamports: 0, kind: AccountKind::System }
    }

    /// An address that nothing was ever sent to: a system account with no lamports.
    pub fn empty() -> (r: Account)
        ensures
            r == Account::spec_empty(),
    {
        Account { lamports: 0, kind: AccountKind::System }
    }
}

/// The ledger in which no address holds anything.
pub open spec fn fresh_ledger() -> Map<Seq<u8>, Account> {
    Map::new(|k: Seq<u8>| true, |k: Seq<u8>| Account::spec_empty())
}

/// Whether two addresses are the same.
pub fn same_key(a: &[u8; 32], b: &[u8; 32]) -> (r: bool)
    ensures
        r == (a@ == b@),
{
    let mut i: usize = 0;
    while i < 32
        invariant
            i <= 32,
            a@.len() == 32,
            b@.len() == 32,
            forall|j: int| 0 <= j < i ==> a@[j] == b@[j],
        decreases 32 - i,
    {
        if a[i] != b[i] {
            assert(a@[i as int] != b@[i as int]);
            return false;
        }
        i += 1;
    }
    assert(a@ =~= b@);
    true
}

#[derive(Clone, Copy)]
struct Entry {
    address: [u8; 32],
    account: Account,
}

spec fn keys_distinct(s: Seq<Entry>) -> bool {
    forall|i: int, j: int|
        0 <= i < s.len() && 0 <= j < s.len() && i != j ==> #[trigger] s[i].address@ != #[trigger] s[j].address@
}

spec fn holds_key(s: Seq<Entry>, k: Seq<u8>) -> bool {
    exists|i: int| 0 <= i < s.len() && #[trigger] s[i].address@ == k
}

spec fn account_at(s: Seq<Entry>, k: Seq<u8>) -> Account {
    if holds_key(s, k) {
        s[choose|i: int| 0 <= i < s.len() && #[trigger] s[i].address@ == k].account
    } else {
        Account::spec_empty()
    }
}

spec fn sum_lamports(s: Seq<Entry>) -> int
    decreases s.len(),
{
    if s.len() == 0 {
        0
    } else {
        sum_lamports(s.drop_last()) + s.last().account.lamports
    }
}

proof fn lemma_account_at_index(s: Seq<Entry>, i: int)
    requires
        keys_distinct(s),
        0 <= i < s.len(),
    ensures
        account_at(s, s[i].address@) == s[i].account,
{
    let k = s[i].address@;
    assert(holds_key(s, k));
    let j = choose|j: int| 0 <= j < s.len() && #[trigger] s[j].address@ == k;
    assert(s[j].address@ == k);
    if j != i {
        assert(s[i].address@ != s[j].address@);
    }
}

proof fn lemma_sum_update(s: Seq<Entry>, i: int, e: Entry)
    requires
        0 <= i < s.len(),
    ensures
        sum_lamports(s.update(i, e)) == sum_lamports(s) - s[i].account.lamports + e.account.lamports,
    decreases s.len(),
{
    let t = s.update(i, e);
    if i == s.len() - 1 {
        assert(t.drop_last() =~= s.drop_last());
    } else {
        lemma_sum_update(s.drop_last(), i, e);
        assert(t.drop_last() =~= s.drop_last().update(i, e));
    }
}

proof fn lemma_sum_push(s: Seq<Entry>, e: Entry)
    ensures
        sum_lamports(s.push(e)) == sum_lamports(s) + e.account.lamports,
{
    assert(s.push(e).drop_last() =~= s);
}

/// The accounts of a cluster, each under its 32-byte address. An address that
/// was never written holds an empty system account.
pub struct Ledger {
    entries: Vec<Entry>,
}

impl View for Ledger {
    type V = Map<Seq<u8>, Account>;

    /// The account under every address.
    closed spec fn view(&self) -> Map<Seq<u8>, Account> {
        Map::new(|k: Seq<u8>| true, |k: Seq<u8>| account_at(self.entries@, k))
    }
}

impl Ledger {
    #[verifier::type_invariant]
    spec fn inv(self) -> bool {
        keys_distinct(self.entries@)
    }

    /// The view gives an account for every address.
    pub proof fn lemma_view_total(&self)
        ensures
            forall|k: Seq<u8>| #[trigger] self@.dom().contains(k),
    {
    }

    /// The lamports that all accounts of the ledger hold together.
    pub closed spec fn total(&self) -> int {
        sum_lamports(self.entries@)
    }

    /// A ledger in which no address holds anything.
    pub fn new() -> (r: Ledger)
        ensures
            r@ == fresh_ledger(),
            r.total() == 0,
    {
        let r = Ledger { entries: Vec::new() };
        assert(r@ =~= fresh_ledger());
        r
    }

    fn find(&self, key: &[u8; 32]) -> (r: Option<usize>)
        ensures
            match r {
                Some(i) => i < self.entries@.len() && self.entries@[i as int].address@ == key@,
                None => !holds_key(self.entries@, key@),
            },
    {
        let n = self.entries.len();
        let mut i: usize = 0;
        while i < n
            invariant
                n == self.entries@.len(),
                i <= n,
                forall|j: int| 0 <= j < i ==> #[trigger] self.entries@[j].address@ != key@,
            decreases n - i,
        {
            if same_key(&self.entries[i].address, key) {
                return Some(i);
            }
            i += 1;
        }
        None
    }

    /// The account under `key`.
    pub fn get(&self, key: &[u8; 32]) -> (r: Account)
        ensures
            r == self@[key@],
    {
        proof {
            use_type_invariant(self);
        }
        match self.find(key) {
            Some(i) => {
                proof {
                    lemma_account_at_index(self.entries@, i as int);
                }
                self.entries[i].account
            },
            None => Account::empty(),
        }
    }

    /// Puts `account` under `key`, in place of what was there.
    pub fn store(&mut self, key: &[u8; 32], account: Account)
        ensures
            final(self)@ == old(self)@.insert(key@, account),
            final(self).total() == old(self).total() - old(self)@[key@].lamports + account.lamports,
    {
        proof {
            use_type_invariant(&*self);
        }
        let ghost s0 = self.entries@;
        let e = Entry { address: *key, account };
        match self.find(key) {
            Some(i) => {
                proof {
                    lemma_account_at_index(s0, i as int);
                    lemma_sum_update(s0, i as int, e);
                }
                let mut es: Vec<Entry> = Vec::new();
                std::mem::swap(&mut es, &mut self.entries);
                es.set(i, e);
                proof {
                    assert(es@ == s0.update(i as int, e));
                    assert(keys_distinct(es@)) by {
                        assert forall|a: int, b: int|
                            0 <= a < es@.len() && 0 <= b < es@.len() && a != b implies
                            #[trigger] es@[a].address@ != #[trigger] es@[b].address@ by {
                            assert(es@[a].address@ == s0[a].address@);
                            assert(es@[b].address@ == s0[b].address@);
                        }
                    }
                }
                self.entries = es;
                proof {
                    let s1 = self.entries@;
                    assert(s1 == s0.update(i as int, e));
                    assert forall|k: Seq<u8>| true implies #[trigger] account_at(s1, k)
                        == old(self)@.insert(key@, account)[k] by {
                        if k == key@ {
                            lemma_account_at_index(s1, i as int);
                        } else if holds_key(s0, k) {
                            let j = choose|j: int| 0 <= j < s0.len() && #[trigger] s0[j].address@ == k;
                            lemma_account_at_index(s0, j);
                            lemma_account_at_index(s1, j);
                        } else {
                            assert(!holds_key(s1, k)) by {
                                if holds_key(s1, k) {
                                    let j = choose|j: int| 0 <= j < s1.len() && #[trigger] s1[j].address@ == k;
                                    assert(s0[j].address@ == k);
                                }
                            }
                        }
                    }
                    assert(self@ =~= old(self)@.insert(key@, account));
                }
            },
            None => {
                proof {
                    lemma_sum_push(s0, e);
                }
                let mut es: Vec<Entry> = Vec::new();
                std::mem::swap(&mut es, &mut self.entries);
                es.push(e);
                proof {
                    assert(es@ == s0.push(e));
                    assert(keys_distinct(es@)) by {
                        assert forall|a: int, b: int|
                            0 <= a < es@.len() && 0 <= b < es@.len() && a != b implies
                            #[trigger] es@[a].address@ != #[trigger] es@[b].address@ by {
                            if a < s0.len() && b < s0.len() {
                                assert(es@[a] == s0[a]);
                                assert(es@[b] == s0[b]);
                            } else if a < s0.len() {
                                assert(es@[a] == s0[a]);
                                assert(s0[a].address@ != key@);
                            } else {
                                assert(es@[b] == s0[b]);
                                assert(s0[b].address@ != key@);
                            }
                        }
                    }
                }
                self.entries = es;
                proof {
                    let s1 = self.entries@;
                    assert(s1 == s0.push(e));
                    assert forall|k: Seq<u8>| true implies #[trigger] account_at(s1, k)
                        == old(self)@.insert(key@, account)[k] by {
                        if k == key@ {
                            lemma_account_at_index(s1, s0.len() as int);
                        } else if holds_key(s0, k) {
                            let j = choose|j: int| 0 <= j < s0.len() && #[trigger] s0[j].address@ == k;
                            lemma_account_at_index(s0, j);
                            lemma_account_at_index(s1, j);
                        } else {
                            assert(!holds_key(s1, k)) by {
                                if holds_key(s1, k) {
                                    let j = choose|j: int| 0 <= j < s1.len() && #[trigger] s1[j].address@ == k;
                                    if j < s0.len() {
                                        assert(s0[j].address@ == k);
                                    }
                                }
                            }
                        }
                    }
                    assert(self@ =~= old(self)@.insert(key@, account));
                }
            },
        }
    }

    /// The lamports that all accounts of the ledger hold together.
    pub fn total_lamports(&self) -> (r: u128)
        ensures
            r == self.total(),
    {
        let n = self.entries.len();
        let mut acc: u128 = 0;
        let mut i: usize = 0;
        while i < n
            invariant
                n == self.entries@.len(),
                i <= n,
                acc == sum_lamports(self.entries@.subrange(0, i as int)),
                acc <= i * 0xffff_ffff_ffff_ffff,
            decreases n - i,
        {
            assert(self.entries@.subrange(0, i + 1).drop_last() =~= self.entries@.subrange(0, i as int));
            acc = acc + self.entries[i].account.lamports as u128;
            i += 1;
        }
        assert(self.entries@.subrange(0, n as int) =~= self.entries@);
        acc
    }

    /// Credits `lamports` to the account under `key`, as a faucet does. Fails,
    /// and leaves the ledger as it was, where the balance would overflow.
    pub fn airdrop(&mut self, key: &[u8; 32], lamports: u64) -> (r: Result<(), VaultError>)
        ensures
            old(self)@[key@].lamports + lamports > u64::MAX ==> r == Err::<(), VaultError>(VaultError::ArithmeticOverflow)
                && final(self)@ == old(self)@ && final(self).total() == old(self).total(),
            old(self)@[key@].lamports + lamports <= u64::MAX ==> r is Ok
                && final(self)@ == old(self)@.insert(key@, Account {
                    lamports: (old(self)@[key@].lamports + lamports) as u64,
                    kind: old(self)@[key@].kind,
                }) && final(self).total() == old(self).total() + lamports,
    {
        let a = self.get(key);
        if a.lamports > u64::MAX - lamports {
            return Err(VaultError::ArithmeticOverflow);
        }
        self.store(key, Account { lamports: a.lamports + lamports, kind: a.kind });
        Ok(())
    }
}

} // verus!
