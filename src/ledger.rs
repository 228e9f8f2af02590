//! Vault ledger: the live custody records, at most one per item.

use vstd::prelude::*;
use crate::error::ErrorCode;
use crate::keys::keys_equal;
use crate::state::Vault;

verus! {

/// The identity of the item a vault holds: its tree and its nonce.
pub open spec fn key_of(v: Vault) -> (Seq<u8>, u64) {
    (v.merkle_tree@, v.nonce)
}

/// Whether some vault of `s` holds the item at `nonce` in `merkle_tree`.
pub open spec fn holds(s: Seq<Vault>, merkle_tree: Seq<u8>, nonce: u64) -> bool {
    exists|i: int| 0 <= i < s.len() && #[trigger] key_of(s[i]) == (merkle_tree, nonce)
}

/// The position in `s` of the vault that holds the item, where one does.
pub open spec fn position_of(s: Seq<Vault>, merkle_tree: Seq<u8>, nonce: u64) -> int {
    choose|i: int| 0 <= i < s.len() && #[trigger] key_of(s[i]) == (merkle_tree, nonce)
}

/// The vault that holds the item, where one does.
pub open spec fn vault_of(s: Seq<Vault>, merkle_tree: Seq<u8>, nonce: u64) -> Vault {
    s[position_of(s, merkle_tree, nonce)]
}

/// No two vaults hold the same item.
pub open spec fn unique_items(s: Seq<Vault>) -> bool {
    forall|i: int, j: int|
        0 <= i < s.len() && 0 <= j < s.len() && i != j ==> #[trigger] key_of(s[i]) != #[trigger] key_of(
            s[j],
        )
}

/// The live vaults, in the order they were created.
pub struct VaultLedger {
    vaults: Vec<Vault>,
}

impl View for VaultLedger {
    type V = Seq<Vault>;

    closed spec fn view(&self) -> Seq<Vault> {
        self.vaults@
    }
}

/// Where the item's vault is, the position is that of a vault holding it,
/// and any such position is that one.
pub proof fn lemma_position_of(s: Seq<Vault>, merkle_tree: Seq<u8>, nonce: u64, i: int)
    requires
        unique_items(s),
        0 <= i < s.len(),
        key_of(s[i]) == (merkle_tree, nonce),
    ensures
        holds(s, merkle_tree, nonce),
        position_of(s, merkle_tree, nonce) == i,
{
    assert(holds(s, merkle_tree, nonce));
    let j = position_of(s, merkle_tree, nonce);
    assert(0 <= j < s.len() && key_of(s[j]) == (merkle_tree, nonce));
}

impl VaultLedger {
    /// An empty ledger.
    pub fn new() -> (r: VaultLedger)
        ensures
            r@ == Seq::<Vault>::empty(),
            unique_items(r@),
    {
        VaultLedger { vaults: Vec::new() }
    }

    /// The number of live vaults.
    pub fn len(&self) -> (r: usize)
        ensures
            r == self@.len(),
    {
        self.vaults.len()
    }

    /// The position of the vault that holds the item at `nonce` in
    /// `merkle_tree`, if any.
    pub fn find(&self, merkle_tree: &[u8; 32], nonce: u64) -> (r: Option<usize>)
        ensures
            match r {
                Some(i) => i < self@.len() && key_of(self@[i as int]) == (merkle_tree@, nonce),
                None => !holds(self@, merkle_tree@, nonce),
            },
    {
        let mut i: usize = 0;
        while i < self.vaults.len()
            invariant
                i <= self@.len(),
                self@ == self.vaults@,
                forall|j: int| 0 <= j < i ==> #[trigger] key_of(self@[j]) != (merkle_tree@, nonce),
            decreases self@.len() - i,
        {
            if self.vaults[i].nonce == nonce && keys_equal(&self.vaults[i].merkle_tree, merkle_tree) {
                return Some(i);
            }
            i = i + 1;
        }
        None
    }

    /// The vault that holds the item, if any.
    pub fn get(&self, merkle_tree: &[u8; 32], nonce: u64) -> (r: Option<Vault>)
        requires
            unique_items(self@),
        ensures
            match r {
                Some(v) => holds(self@, merkle_tree@, nonce) && v == vault_of(self@, merkle_tree@, nonce),
                None => !holds(self@, merkle_tree@, nonce),
            },
    {
        match self.find(merkle_tree, nonce) {
            Some(i) => {
                proof {
                    lemma_position_of(self@, merkle_tree@, nonce, i as int);
                }
                Some(self.vaults[i])
            },
            None => None,
        }
    }

    /// The vault at position `i`.
    pub fn vault_at(&self, i: usize) -> (r: Vault)
        requires
            i < self@.len(),
        ensures
            r == self@[i as int],
    {
        self.vaults[i]
    }

    /// Records a vault for an item that no vault holds.
    pub(crate) fn insert(&mut self, vault: Vault)
        requires
            unique_items(old(self)@),
            !holds(old(self)@, vault.merkle_tree@, vault.nonce),
        ensures
            final(self)@ == old(self)@.push(vault),
            unique_items(final(self)@),
    {
        self.vaults.push(vault);
        assert forall|i: int, j: int|
            0 <= i < self@.len() && 0 <= j < self@.len() && i != j implies #[trigger] key_of(self@[i])
            != #[trigger] key_of(self@[j]) by {
            if i == self@.len() - 1 {
                assert(key_of(old(self)@[j]) != key_of(vault));
            } else if j == self@.len() - 1 {
                assert(key_of(old(self)@[i]) != key_of(vault));
            }
        }
    }

    /// Records `vault`, unless a vault already holds its item: then the
    /// ledger is unchanged and the error is `AlreadyLocked`.
    pub fn record(&mut self, vault: Vault) -> (r: Result<(), ErrorCode>)
        requires
            unique_items(old(self)@),
        ensures
            unique_items(final(self)@),
            holds(old(self)@, vault.merkle_tree@, vault.nonce) ==> r == Err::<(), ErrorCode>(
                ErrorCode::AlreadyLocked,
            ) && final(self)@ == old(self)@,
            !holds(old(self)@, vault.merkle_tree@, vault.nonce) ==> r is Ok && final(self)@ == old(
                self,
            )@.push(vault),
    {
        if self.find(&vault.merkle_tree, vault.nonce).is_some() {
            return Err(ErrorCode::AlreadyLocked);
        }
        self.insert(vault);
        Ok(())
    }

    /// Deletes the vault at position `i` and returns it.
    pub(crate) fn remove(&mut self, i: usize) -> (r: Vault)
        requires
            unique_items(old(self)@),
            i < old(self)@.len(),
        ensures
            r == old(self)@[i as int],
            final(self)@ == old(self)@.remove(i as int),
            unique_items(final(self)@),
    {
        let r = self.vaults.remove(i);
        assert forall|a: int, b: int|
            0 <= a < self@.len() && 0 <= b < self@.len() && a != b implies #[trigger] key_of(self@[a])
            != #[trigger] key_of(self@[b]) by {
            let oa = if a < i { a } else { a + 1 };
            let ob = if b < i { b } else { b + 1 };
            assert(key_of(old(self)@[oa]) != key_of(old(self)@[ob]));
        }
        r
    }
}

} // verus!
