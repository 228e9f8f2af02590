//! Tree-transition requests: what the tree service is asked to do when an
//! item changes hands, and the instruction that carries the request.

use vstd::prelude::*;
use crate::keys::{bubblegum_id_spec, bubblegum_program_id, le_bytes, le_encode, system_program_id};
use crate::leaf::{leaf_node, leaf_node_spec, LeafFields};

verus! {

/// A request to move the leaf at `index` of `merkle_tree` from
/// `leaf_owner` / `leaf_delegate` to `new_leaf_owner`, valid only while
/// the tree's root is `root`.
#[derive(Clone, Copy, Debug)]
pub struct TransferRequest {
    pub leaf_owner: [u8; 32],
    pub leaf_delegate: [u8; 32],
    pub new_leaf_owner: [u8; 32],
    pub merkle_tree: [u8; 32],
    pub root: [u8; 32],
    pub data_hash: [u8; 32],
    pub creator_hash: [u8; 32],
    pub nonce: u64,
    pub index: u32,
}

/// The leaf as it stands before the transfer.
pub open spec fn previous_leaf(req: TransferRequest, asset_id: [u8; 32]) -> LeafFields {
    LeafFields {
        asset_id,
        owner: req.leaf_owner,
        delegate: req.leaf_delegate,
        nonce: req.nonce,
        data_hash: req.data_hash,
        creator_hash: req.creator_hash,
    }
}

/// The leaf after the transfer: the new owner is also the delegate.
pub open spec fn new_leaf(req: TransferRequest, asset_id: [u8; 32]) -> LeafFields {
    LeafFields {
        asset_id,
        owner: req.new_leaf_owner,
        delegate: req.new_leaf_owner,
        nonce: req.nonce,
        data_hash: req.data_hash,
        creator_hash: req.creator_hash,
    }
}

/// The nodes of the leaf before and after the transfer: the service checks
/// the first against the root and commits the second.
pub fn transition_nodes(request: &TransferRequest, asset_id: &[u8; 32]) -> (r: ([u8; 32], [u8; 32]))
    ensures
        r.0@ == leaf_node_spec(previous_leaf(*request, *asset_id)),
        r.1@ == leaf_node_spec(new_leaf(*request, *asset_id)),
{
    let before = LeafFields {
        asset_id: *asset_id,
        owner: request.leaf_owner,
        delegate: request.leaf_delegate,
        nonce: request.nonce,
        data_hash: request.data_hash,
        creator_hash: request.creator_hash,
    };
    let after = LeafFields {
        asset_id: *asset_id,
        owner: request.new_leaf_owner,
        delegate: request.new_leaf_owner,
        nonce: request.nonce,
        data_hash: request.data_hash,
        creator_hash: request.creator_hash,
    };
    (leaf_node(&before), leaf_node(&after))
}

/// One account of an instruction.
#[derive(Clone, Copy, Debug)]
pub struct AccountRef {
    pub key: [u8; 32],
    pub is_signer: bool,
    pub is_writable: bool,
}

/// An instruction for another program.
#[derive(Debug)]
pub struct TransferInstruction {
    pub program_id: [u8; 32],
    pub accounts: Vec<AccountRef>,
    pub data: Vec<u8>,
}

/// An account as plain values.
pub open spec fn account_view(a: AccountRef) -> (Seq<u8>, bool, bool) {
    (a.key@, a.is_signer, a.is_writable)
}

/// The instruction data of a transfer: root, data hash, creator hash, then
/// the nonce in eight and the index in four little-endian bytes.
pub open spec fn transfer_data_spec(
    root: Seq<u8>,
    data_hash: Seq<u8>,
    creator_hash: Seq<u8>,
    nonce: u64,
    index: u32,
) -> Seq<u8> {
    root + data_hash + creator_hash + le_bytes(nonce as nat, 8) + le_bytes(index as nat, 4)
}

/// Length of the transfer instruction data.
pub const TRANSFER_DATA_SIZE: usize = 32 * 3 + 8 + 4;

fn append_key(out: &mut Vec<u8>, k: &[u8; 32])
    ensures
        final(out)@ == old(out)@ + k@,
{
    let mut i: usize = 0;
    while i < 32
        invariant
            i <= 32,
            out@ =~= old(out)@ + k@.subrange(0, i as int),
        decreases 32 - i,
    {
        out.push(k[i]);
        i = i + 1;
    }
    assert(k@.subrange(0, 32) =~= k@);
}

fn append_bytes(out: &mut Vec<u8>, b: &Vec<u8>)
    ensures
        final(out)@ == old(out)@ + b@,
{
    let mut i: usize = 0;
    while i < b.len()
        invariant
            i <= b@.len(),
            out@ =~= old(out)@ + b@.subrange(0, i as int),
        decreases b@.len() - i,
    {
        out.push(b[i]);
        i = i + 1;
    }
    assert(b@.subrange(0, b@.len() as int) =~= b@);
}

/// The instruction data of a transfer (see `transfer_data_spec`).
pub fn create_transfer_data(
    root: &[u8; 32],
    data_hash: &[u8; 32],
    creator_hash: &[u8; 32],
    nonce: u64,
    index: u32,
) -> (r: Vec<u8>)
    ensures
        r@ == transfer_data_spec(root@, data_hash@, creator_hash@, nonce, index),
        r@.len() == TRANSFER_DATA_SIZE,
{
    let mut data: Vec<u8> = Vec::with_capacity(TRANSFER_DATA_SIZE);
    append_key(&mut data, root);
    append_key(&mut data, data_hash);
    append_key(&mut data, creator_hash);
    append_bytes(&mut data, &le_encode(nonce, 8));
    append_bytes(&mut data, &le_encode(index as u64, 4));
    data
}

/// The accounts of a transfer: the tree authority, the current owner (who
/// signs), the new owner, the tree (written), the log wrapper, the
/// compression program and the system program, then the proof's nodes.
pub open spec fn transfer_accounts_spec(
    tree_authority: Seq<u8>,
    leaf_owner: Seq<u8>,
    new_leaf_owner: Seq<u8>,
    merkle_tree: Seq<u8>,
    log_wrapper: Seq<u8>,
    compression_program: Seq<u8>,
    proof: Seq<[u8; 32]>,
) -> Seq<(Seq<u8>, bool, bool)> {
    seq![
        (tree_authority, false, false),
        (leaf_owner, true, false),
        (new_leaf_owner, false, false),
        (merkle_tree, false, true),
        (log_wrapper, false, false),
        (compression_program, false, false),
        (Seq::new(32, |i: int| 0u8), false, false),
    ] + proof_accounts_view(proof)
}

/// Accounts as plain values.
pub open spec fn accounts_view(s: Seq<AccountRef>) -> Seq<(Seq<u8>, bool, bool)> {
    s.map_values(|a: AccountRef| account_view(a))
}

/// The proof's nodes as read-only accounts.
pub open spec fn proof_accounts_view(proof: Seq<[u8; 32]>) -> Seq<(Seq<u8>, bool, bool)> {
    proof.map_values(|k: [u8; 32]| (k@, false, false))
}

fn read_only(key: [u8; 32]) -> (r: AccountRef)
    ensures
        account_view(r) == (key@, false, false),
{
    AccountRef { key, is_signer: false, is_writable: false }
}

/// The instruction that asks the compressed-collectible program to carry
/// out `request`: the owner and new owner accounts are those of the
/// request.
pub fn transfer_instruction(
    tree_authority: &[u8; 32],
    merkle_tree: &[u8; 32],
    log_wrapper: &[u8; 32],
    compression_program: &[u8; 32],
    request: &TransferRequest,
    proof: &Vec<[u8; 32]>,
) -> (r: TransferInstruction)
    ensures
        r.program_id@ == bubblegum_id_spec(),
        accounts_view(r.accounts@) == transfer_accounts_spec(
            tree_authority@,
            request.leaf_owner@,
            request.new_leaf_owner@,
            merkle_tree@,
            log_wrapper@,
            compression_program@,
            proof@,
        ),
        r.data@ == transfer_data_spec(
            request.root@,
            request.data_hash@,
            request.creator_hash@,
            request.nonce,
            request.index,
        ),
{
    let mut accounts: Vec<AccountRef> = Vec::new();
    accounts.push(read_only(*tree_authority));
    accounts.push(AccountRef { key: request.leaf_owner, is_signer: true, is_writable: false });
    accounts.push(read_only(request.new_leaf_owner));
    accounts.push(AccountRef { key: *merkle_tree, is_signer: false, is_writable: true });
    accounts.push(read_only(*log_wrapper));
    accounts.push(read_only(*compression_program));
    accounts.push(read_only(system_program_id()));
    let head = Ghost(accounts_view(accounts@));
    assert(head@ =~= transfer_accounts_spec(
        tree_authority@,
        request.leaf_owner@,
        request.new_leaf_owner@,
        merkle_tree@,
        log_wrapper@,
        compression_program@,
        Seq::empty(),
    ));
    let mut i: usize = 0;
    while i < proof.len()
        invariant
            i <= proof@.len(),
            accounts_view(accounts@) =~= head@ + proof_accounts_view(proof@.subrange(0, i as int)),
        decreases proof@.len() - i,
    {
        let before = Ghost(accounts@);
        let entry = read_only(proof[i]);
        accounts.push(entry);
        assert(accounts_view(accounts@) =~= accounts_view(before@).push(account_view(entry)));
        assert(proof_accounts_view(proof@.subrange(0, i + 1)) =~= proof_accounts_view(
            proof@.subrange(0, i as int),
        ).push((proof@[i as int]@, false, false)));
        i = i + 1;
    }
    assert(proof@.subrange(0, proof@.len() as int) =~= proof@);
    let data = create_transfer_data(
        &request.root,
        &request.data_hash,
        &request.creator_hash,
        request.nonce,
        request.index,
    );
    TransferInstruction { program_id: bubblegum_program_id(), accounts, data }
}

} // verus!
