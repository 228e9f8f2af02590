//! Leaf-state codec: the ownership leaf of an item and the node hash that
//! the tree stores for it.

use vstd::prelude::*;
use crate::fraction::keccak256_of;
use crate::keys::le_bytes;

verus! {

/// The public fields of an ownership leaf. Owner and delegate are distinct
/// named fields, so that one cannot be passed for the other.
#[derive(Clone, Copy, Debug)]
pub struct LeafFields {
    pub asset_id: [u8; 32],
    pub owner: [u8; 32],
    pub delegate: [u8; 32],
    pub nonce: u64,
    pub data_hash: [u8; 32],
    pub creator_hash: [u8; 32],
}

/// The version tag of the leaf encoding.
pub const LEAF_VERSION: u8 = 1;

/// The bytes that are hashed into a leaf node: the version tag, then the
/// asset identity, owner, delegate, little-endian nonce and the two content
/// hashes.
pub open spec fn leaf_encoding(leaf: LeafFields) -> Seq<u8> {
    seq![LEAF_VERSION] + leaf.asset_id@ + leaf.owner@ + leaf.delegate@ + le_bytes(leaf.nonce as nat, 8)
        + leaf.data_hash@ + leaf.creator_hash@
}

/// The node that the tree stores for a leaf.
pub open spec fn leaf_node_spec(leaf: LeafFields) -> Seq<u8> {
    keccak256_of(leaf_encoding(leaf))
}

/// Relies on `mpl_bubblegum::types::LeafSchema::hash` of a version-1 leaf:
/// `keccak::hashv` over the version byte 1, the id, owner and delegate, the
/// nonce's little-endian bytes and the two hashes, which is the digest of
/// their concatenation.
#[verifier::external_body]
fn leaf_schema_hash(leaf: &LeafFields) -> (r: [u8; 32])
    ensures
        r@ == keccak256_of(leaf_encoding(*leaf)),
{
    let schema = mpl_bubblegum::types::LeafSchema::V1 {
        id: solana_program::pubkey::Pubkey::new_from_array(leaf.asset_id),
        owner: solana_program::pubkey::Pubkey::new_from_array(leaf.owner),
        delegate: solana_program::pubkey::Pubkey::new_from_array(leaf.delegate),
        nonce: leaf.nonce,
        data_hash: leaf.data_hash,
        creator_hash: leaf.creator_hash,
    };
    schema.hash()
}

/// The node hash of an ownership leaf.
pub fn leaf_node(leaf: &LeafFields) -> (r: [u8; 32])
    ensures
        r@ == leaf_node_spec(*leaf),
{
    leaf_schema_hash(leaf)
}

/// Two leaves that agree on every field have the same node; the node of a
/// leaf is a function of its fields alone.
pub proof fn lemma_leaf_node_of_equal_fields(a: LeafFields, b: LeafFields)
    requires
        a.asset_id@ == b.asset_id@,
        a.owner@ == b.owner@,
        a.delegate@ == b.delegate@,
        a.nonce == b.nonce,
        a.data_hash@ == b.data_hash@,
        a.creator_hash@ == b.creator_hash@,
    ensures
        leaf_node_spec(a) == leaf_node_spec(b),
{
    assert(leaf_encoding(a) == leaf_encoding(b));
}

} // verus!
