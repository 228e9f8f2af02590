//! The vault record, the addresses derived for it and for the program's
//! authorities, and the checks made on a vault before it is trusted.

use vstd::prelude::*;
use crate::error::ErrorCode;
use crate::keys::{
    address_view, bubblegum_id_spec, bubblegum_program_id, compression_id_spec,
    compression_program_id, find_program_address, keys_equal, le_bytes, le_encode,
    program_address_of, program_id, program_id_spec, seeds_view,
};

verus! {

/// The custody record of one locked item, keyed by its tree and its nonce.
#[derive(Clone, Copy, Debug)]
pub struct Vault {
    /// Who locked the item, and the only one who may redeem it.
    pub owner: [u8; 32],
    /// The tree that holds the item's leaf.
    pub merkle_tree: [u8; 32],
    /// The tree's root when the item was locked.
    pub root: [u8; 32],
    pub data_hash: [u8; 32],
    pub creator_hash: [u8; 32],
    /// The item's position in the tree, as its identity.
    pub nonce: u64,
    /// The leaf's index in the tree.
    pub index: u32,
    /// When the item was locked, in seconds since the epoch.
    pub locked_at: i64,
}

/// Bytes of `b"vault"`.
pub open spec fn vault_prefix_spec() -> Seq<u8> {
    seq![118u8, 97, 117, 108, 116]
}

/// Bytes of `b"authority"`.
pub open spec fn authority_prefix_spec() -> Seq<u8> {
    seq![97u8, 117, 116, 104, 111, 114, 105, 116, 121]
}

/// Bytes of `b"asset"`.
pub open spec fn asset_prefix_spec() -> Seq<u8> {
    seq![97u8, 115, 115, 101, 116]
}

/// The seed prefix of vault addresses, `b"vault"`.
pub fn vault_prefix() -> (r: Vec<u8>)
    ensures
        r@ == vault_prefix_spec(),
{
    let mut r: Vec<u8> = Vec::new();
    r.push(118u8);
    r.push(97u8);
    r.push(117u8);
    r.push(108u8);
    r.push(116u8);
    assert(r@ =~= vault_prefix_spec());
    r
}

/// The seed of the fraction mint's authority, `b"authority"`.
pub fn authority_prefix() -> (r: Vec<u8>)
    ensures
        r@ == authority_prefix_spec(),
{
    let mut r: Vec<u8> = Vec::new();
    r.push(97u8);
    r.push(117u8);
    r.push(116u8);
    r.push(104u8);
    r.push(111u8);
    r.push(114u8);
    r.push(105u8);
    r.push(116u8);
    r.push(121u8);
    assert(r@ =~= authority_prefix_spec());
    r
}

/// The seed prefix of asset identities, `b"asset"`.
pub fn asset_prefix() -> (r: Vec<u8>)
    ensures
        r@ == asset_prefix_spec(),
{
    let mut r: Vec<u8> = Vec::new();
    r.push(97u8);
    r.push(115u8);
    r.push(115u8);
    r.push(101u8);
    r.push(116u8);
    assert(r@ =~= asset_prefix_spec());
    r
}

/// The bytes of a key as a vector.
pub fn key_bytes(k: &[u8; 32]) -> (r: Vec<u8>)
    ensures
        r@ == k@,
{
    let mut r: Vec<u8> = Vec::with_capacity(32);
    let mut i: usize = 0;
    while i < 32
        invariant
            i <= 32,
            r@ =~= k@.subrange(0, i as int),
        decreases 32 - i,
    {
        r.push(k[i]);
        i = i + 1;
    }
    assert(k@.subrange(0, 32) =~= k@);
    r
}

/// The seeds of the vault of the item at `nonce` in `merkle_tree`.
pub open spec fn vault_seeds(merkle_tree: Seq<u8>, nonce: u64) -> Seq<Seq<u8>> {
    seq![vault_prefix_spec(), merkle_tree, le_bytes(nonce as nat, 8)]
}

/// The seeds of the asset identity of the item at `nonce` in `merkle_tree`.
pub open spec fn asset_seeds(merkle_tree: Seq<u8>, nonce: u64) -> Seq<Seq<u8>> {
    seq![asset_prefix_spec(), merkle_tree, le_bytes(nonce as nat, 8)]
}

/// The identity of a derived address, without its bump.
pub open spec fn address_key(a: Option<(Seq<u8>, u8)>) -> Option<Seq<u8>> {
    match a {
        Some((k, _)) => Some(k),
        None => None,
    }
}

/// Seeds made of a key and a little-endian nonce after a prefix.
fn prefixed_seeds(prefix: Vec<u8>, merkle_tree: &[u8; 32], nonce: u64) -> (r: Vec<Vec<u8>>)
    ensures
        seeds_view(r@) == seq![prefix@, merkle_tree@, le_bytes(nonce as nat, 8)],
{
    let mut seeds: Vec<Vec<u8>> = Vec::new();
    let p = Ghost(prefix@);
    seeds.push(prefix);
    seeds.push(key_bytes(merkle_tree));
    seeds.push(le_encode(nonce, 8));
    assert(seeds_view(seeds@) =~= seq![p@, merkle_tree@, le_bytes(nonce as nat, 8)]);
    seeds
}

impl Vault {
    /// Size of the stored record: an eight-byte discriminator, five keys,
    /// the nonce, the index and the lock time.
    pub const LEN: usize = 8 + 32 + 32 + 32 + 32 + 32 + 8 + 4 + 8;

    /// The vault's key and bump for the item at `nonce` in `merkle_tree`,
    /// derived under this program.
    pub fn pda(merkle_tree: &[u8; 32], nonce: u64) -> (r: Option<([u8; 32], u8)>)
        ensures
            address_view(r) == program_address_of(vault_seeds(merkle_tree@, nonce), program_id_spec()),
    {
        let seeds = prefixed_seeds(vault_prefix(), merkle_tree, nonce);
        find_program_address(&seeds, &program_id())
    }

    /// Checks that this vault belongs to `owner` and is recorded for the tree
    /// account `merkle_tree_key`, which the compression program must own.
    pub fn validate_state(
        &self,
        merkle_tree_key: &[u8; 32],
        merkle_tree_owner: &[u8; 32],
        owner: &[u8; 32],
    ) -> (r: Result<(), ErrorCode>)
        ensures
            r == validate_state_spec(*self, merkle_tree_key@, merkle_tree_owner@, owner@),
    {
        if !keys_equal(&self.owner, owner) {
            return Err(ErrorCode::InvalidOwner);
        }
        if !keys_equal(merkle_tree_owner, &compression_program_id()) {
            return Err(ErrorCode::InvalidTreeOwner);
        }
        if !keys_equal(&self.merkle_tree, merkle_tree_key) {
            return Err(ErrorCode::InvalidTreeState);
        }
        Ok(())
    }
}

/// The outcome of `Vault::validate_state`: the owner is checked first, then
/// the tree account's owner, then the recorded tree.
pub open spec fn validate_state_spec(
    vault: Vault,
    merkle_tree_key: Seq<u8>,
    merkle_tree_owner: Seq<u8>,
    owner: Seq<u8>,
) -> Result<(), ErrorCode> {
    if vault.owner@ != owner {
        Err(ErrorCode::InvalidOwner)
    } else if merkle_tree_owner != compression_id_spec() {
        Err(ErrorCode::InvalidTreeOwner)
    } else if vault.merkle_tree@ != merkle_tree_key {
        Err(ErrorCode::InvalidTreeState)
    } else {
        Ok(())
    }
}

/// The tree's authority and bump, derived from the tree's key under the
/// compressed-collectible program.
pub fn find_tree_authority(merkle_tree: &[u8; 32]) -> (r: Option<([u8; 32], u8)>)
    ensures
        address_view(r) == program_address_of(seq![merkle_tree@], bubblegum_id_spec()),
{
    let mut seeds: Vec<Vec<u8>> = Vec::new();
    seeds.push(key_bytes(merkle_tree));
    assert(seeds_view(seeds@) =~= seq![merkle_tree@]);
    find_program_address(&seeds, &bubblegum_program_id())
}

/// The fraction mint's authority and bump, derived under this program.
pub fn find_authority() -> (r: Option<([u8; 32], u8)>)
    ensures
        address_view(r) == program_address_of(seq![authority_prefix_spec()], program_id_spec()),
{
    let mut seeds: Vec<Vec<u8>> = Vec::new();
    seeds.push(authority_prefix());
    assert(seeds_view(seeds@) =~= seq![authority_prefix_spec()]);
    find_program_address(&seeds, &program_id())
}

/// The outcome of `assert_vault_owner`.
pub open spec fn assert_vault_owner_spec(vault: Vault, expected_owner: Seq<u8>) -> Result<(), ErrorCode> {
    if vault.owner@ != expected_owner {
        Err(ErrorCode::InvalidOwner)
    } else {
        match address_key(program_address_of(vault_seeds(vault.merkle_tree@, vault.nonce), program_id_spec())) {
            Some(k) => if vault.owner@ == k {
                Ok(())
            } else {
                Err(ErrorCode::InvalidOwner)
            },
            None => Err(ErrorCode::InvalidOwner),
        }
    }
}

/// Checks that the vault's owner is `expected_owner` and is also the vault's
/// own derived address. The program identity passed in is not consulted:
/// the address is always derived under this program.
pub fn assert_vault_owner(vault: &Vault, expected_owner: &[u8; 32], _program_id: &[u8; 32]) -> (r: Result<(), ErrorCode>)
    ensures
        r == assert_vault_owner_spec(*vault, expected_owner@),
{
    if !keys_equal(&vault.owner, expected_owner) {
        return Err(ErrorCode::InvalidOwner);
    }
    match Vault::pda(&vault.merkle_tree, vault.nonce) {
        Some((vault_pda, _)) => if keys_equal(&vault.owner, &vault_pda) {
            Ok(())
        } else {
            Err(ErrorCode::InvalidOwner)
        },
        None => Err(ErrorCode::InvalidOwner),
    }
}

/// The asset identity of the item at `nonce` in `merkle_tree`, derived under
/// the compressed-collectible program.
pub fn get_asset_id(merkle_tree: &[u8; 32], nonce: u64) -> (r: Option<[u8; 32]>)
    ensures
        match r {
            Some(k) => address_key(program_address_of(asset_seeds(merkle_tree@, nonce), bubblegum_id_spec()))
                == Some(k@),
            None => program_address_of(asset_seeds(merkle_tree@, nonce), bubblegum_id_spec()) is None,
        },
{
    let seeds = prefixed_seeds(asset_prefix(), merkle_tree, nonce);
    match find_program_address(&seeds, &bubblegum_program_id()) {
        Some((k, _)) => Some(k),
        None => None,
    }
}

} // verus!
