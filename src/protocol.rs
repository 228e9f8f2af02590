//! The lock and unlock protocol. Each operation is a pair of steps around
//! the tree service: the first decides whether the operation may go ahead
//! and what the service is asked to do; the second takes the service's
//! outcome, records or closes the vault, and gives the fraction quantity to
//! mint or burn. A step that fails changes nothing.

use vstd::prelude::*;
use crate::authenticate::{
    authenticate_content, authenticate_spec, copy_creators, creators_hash_spec, hash_view, lengths_fit,
    recompute_data_hash, recomputed_data_hash, CreatorRecord, MetadataRecord,
};
use crate::error::ErrorCode;
use crate::fraction::{calculate_fraction_amount, fraction_amount_spec};
use crate::keys::keys_equal;
use crate::leaf::{leaf_node_spec, lemma_leaf_node_of_equal_fields};
use crate::ledger::{holds, key_of, lemma_position_of, position_of, unique_items, vault_of, VaultLedger};
use crate::state::Vault;
use crate::transfer::{new_leaf, previous_leaf, TransferRequest};

verus! {

/// What the tree service reports for a transfer request.
#[derive(Clone, Copy, Debug, PartialEq, Eq, Structural)]
pub enum TransitionOutcome {
    /// The leaf was replaced and the new root published.
    Committed,
    /// The root rebuilt from the proof was not the supplied root: another
    /// transition came first.
    StaleRoot,
    /// The proof's length does not match the tree's depth.
    ProofLengthMismatch,
    /// The caller lacks authority over the leaf.
    Unauthorized,
    /// The service failed otherwise.
    Failed,
}

/// The error that a failed transition is reported as.
pub open spec fn transition_error(outcome: TransitionOutcome) -> ErrorCode {
    match outcome {
        TransitionOutcome::StaleRoot => ErrorCode::MerkleProofVerificationFailed,
        TransitionOutcome::ProofLengthMismatch => ErrorCode::InvalidProofLength,
        TransitionOutcome::Unauthorized => ErrorCode::LeafAuthorityMustSign,
        _ => ErrorCode::TreeUpdateFailed,
    }
}

/// The error that a failed transition is reported as.
pub fn transition_error_of(outcome: TransitionOutcome) -> (r: ErrorCode)
    ensures
        r == transition_error(outcome),
{
    match outcome {
        TransitionOutcome::StaleRoot => ErrorCode::MerkleProofVerificationFailed,
        TransitionOutcome::ProofLengthMismatch => ErrorCode::InvalidProofLength,
        TransitionOutcome::Unauthorized => ErrorCode::LeafAuthorityMustSign,
        _ => ErrorCode::TreeUpdateFailed,
    }
}

/// The first step of a lock: an item that a vault already holds is
/// refused; then the claimed hashes are authenticated; then the service is
/// asked to move the leaf from `owner` (as owner and delegate) to the vault.
pub open spec fn begin_lock_spec(
    ledger: Seq<Vault>,
    owner: [u8; 32],
    vault_address: [u8; 32],
    merkle_tree: [u8; 32],
    computed_data_hash: Option<Seq<u8>>,
    creators: Seq<CreatorRecord>,
    root: [u8; 32],
    data_hash: [u8; 32],
    creator_hash: [u8; 32],
    nonce: u64,
    index: u32,
) -> Result<TransferRequest, ErrorCode> {
    if holds(ledger, merkle_tree@, nonce) {
        Err(ErrorCode::AlreadyLocked)
    } else if let Err(e) = authenticate_spec(computed_data_hash, creators, data_hash@, creator_hash@) {
        Err(e)
    } else {
        Ok(
            TransferRequest {
                leaf_owner: owner,
                leaf_delegate: owner,
                new_leaf_owner: vault_address,
                merkle_tree,
                root,
                data_hash,
                creator_hash,
                nonce,
                index,
            },
        )
    }
}

/// The vault recorded when a lock request commits.
pub open spec fn vault_for(request: TransferRequest, locked_at: i64) -> Vault {
    Vault {
        owner: request.leaf_owner,
        merkle_tree: request.merkle_tree,
        root: request.root,
        data_hash: request.data_hash,
        creator_hash: request.creator_hash,
        nonce: request.nonce,
        index: request.index,
        locked_at,
    }
}

/// The second step of a lock: where the transition committed and no vault
/// holds the item, the vault is recorded and the item's fraction quantity
/// is to be minted to its owner; otherwise the ledger is unchanged.
pub open spec fn complete_lock_spec(
    ledger: Seq<Vault>,
    request: TransferRequest,
    outcome: TransitionOutcome,
    locked_at: i64,
) -> (Seq<Vault>, Result<u64, ErrorCode>) {
    if outcome != TransitionOutcome::Committed {
        (ledger, Err(transition_error(outcome)))
    } else if holds(ledger, request.merkle_tree@, request.nonce) {
        (ledger, Err(ErrorCode::AlreadyLocked))
    } else {
        (
            ledger.push(vault_for(request, locked_at)),
            Ok(fraction_amount_spec(request.data_hash@, request.creator_hash@)),
        )
    }
}

/// The first step of an unlock: the item must be in a vault, the caller
/// must be its owner and must hold at least the item's fraction quantity;
/// the service is then asked to move the leaf from the vault back to the
/// owner, against the root recorded at lock time.
pub open spec fn begin_unlock_spec(
    ledger: Seq<Vault>,
    merkle_tree: Seq<u8>,
    nonce: u64,
    caller: Seq<u8>,
    vault_address: [u8; 32],
    balance: u64,
) -> Result<TransferRequest, ErrorCode> {
    if !holds(ledger, merkle_tree, nonce) {
        Err(ErrorCode::NFTNotInVault)
    } else {
        let v = vault_of(ledger, merkle_tree, nonce);
        if v.owner@ != caller {
            Err(ErrorCode::InvalidOwner)
        } else if balance < fraction_amount_spec(v.data_hash@, v.creator_hash@) {
            Err(ErrorCode::InsufficientFractionBalance)
        } else {
            Ok(
                TransferRequest {
                    leaf_owner: vault_address,
                    leaf_delegate: vault_address,
                    new_leaf_owner: v.owner,
                    merkle_tree: v.merkle_tree,
                    root: v.root,
                    data_hash: v.data_hash,
                    creator_hash: v.creator_hash,
                    nonce: v.nonce,
                    index: v.index,
                },
            )
        }
    }
}

/// The second step of an unlock: where the item is in a vault of the
/// caller's and the transition committed, the vault is deleted and the
/// item's fraction quantity is to be burned; otherwise the ledger is
/// unchanged.
pub open spec fn complete_unlock_spec(
    ledger: Seq<Vault>,
    merkle_tree: Seq<u8>,
    nonce: u64,
    caller: Seq<u8>,
    outcome: TransitionOutcome,
) -> (Seq<Vault>, Result<u64, ErrorCode>) {
    if !holds(ledger, merkle_tree, nonce) {
        (ledger, Err(ErrorCode::NFTNotInVault))
    } else if vault_of(ledger, merkle_tree, nonce).owner@ != caller {
        (ledger, Err(ErrorCode::InvalidOwner))
    } else if outcome != TransitionOutcome::Committed {
        (ledger, Err(transition_error(outcome)))
    } else {
        let v = vault_of(ledger, merkle_tree, nonce);
        (
            ledger.remove(position_of(ledger, merkle_tree, nonce)),
            Ok(fraction_amount_spec(v.data_hash@, v.creator_hash@)),
        )
    }
}

/// First step of a lock (see `begin_lock_spec`). `computed_data_hash` is the
/// data hash recomputed from the item's metadata, and `creators` its
/// creator set.
pub fn begin_lock(
    ledger: &VaultLedger,
    owner: &[u8; 32],
    vault_address: &[u8; 32],
    merkle_tree: &[u8; 32],
    computed_data_hash: Option<[u8; 32]>,
    creators: &Vec<CreatorRecord>,
    root: &[u8; 32],
    data_hash: &[u8; 32],
    creator_hash: &[u8; 32],
    nonce: u64,
    index: u32,
) -> (r: Result<TransferRequest, ErrorCode>)
    ensures
        r == begin_lock_spec(
            ledger@,
            *owner,
            *vault_address,
            *merkle_tree,
            hash_view(computed_data_hash),
            creators@,
            *root,
            *data_hash,
            *creator_hash,
            nonce,
            index,
        ),
{
    if ledger.find(merkle_tree, nonce).is_some() {
        return Err(ErrorCode::AlreadyLocked);
    }
    match authenticate_content(computed_data_hash, creators, data_hash, creator_hash) {
        Err(e) => Err(e),
        Ok(()) => Ok(
            TransferRequest {
                leaf_owner: *owner,
                leaf_delegate: *owner,
                new_leaf_owner: *vault_address,
                merkle_tree: *merkle_tree,
                root: *root,
                data_hash: *data_hash,
                creator_hash: *creator_hash,
                nonce,
                index,
            },
        ),
    }
}

/// First step of a lock of the item described by `metadata`: its data hash
/// is recomputed and its creator set read from it, then as `begin_lock`.
pub fn begin_lock_item(
    ledger: &VaultLedger,
    owner: &[u8; 32],
    vault_address: &[u8; 32],
    merkle_tree: &[u8; 32],
    metadata: MetadataRecord,
    root: &[u8; 32],
    data_hash: &[u8; 32],
    creator_hash: &[u8; 32],
    nonce: u64,
    index: u32,
) -> (r: Result<TransferRequest, ErrorCode>)
    requires
        lengths_fit(metadata),
    ensures
        r == begin_lock_spec(
            ledger@,
            *owner,
            *vault_address,
            *merkle_tree,
            recomputed_data_hash(metadata),
            metadata.creators@,
            *root,
            *data_hash,
            *creator_hash,
            nonce,
            index,
        ),
{
    let creators = copy_creators(&metadata.creators);
    let digest = recompute_data_hash(metadata);
    begin_lock(
        ledger,
        owner,
        vault_address,
        merkle_tree,
        digest,
        &creators,
        root,
        data_hash,
        creator_hash,
        nonce,
        index,
    )
}

/// Second step of a lock (see `complete_lock_spec`): returns the quantity
/// of fraction tokens to mint to the owner.
pub fn complete_lock(
    ledger: &mut VaultLedger,
    request: &TransferRequest,
    outcome: TransitionOutcome,
    locked_at: i64,
) -> (r: Result<u64, ErrorCode>)
    requires
        unique_items(old(ledger)@),
    ensures
        unique_items(final(ledger)@),
        (final(ledger)@, r) == complete_lock_spec(old(ledger)@, *request, outcome, locked_at),
{
    if outcome != TransitionOutcome::Committed {
        return Err(transition_error_of(outcome));
    }
    if ledger.find(&request.merkle_tree, request.nonce).is_some() {
        return Err(ErrorCode::AlreadyLocked);
    }
    ledger.insert(
        Vault {
            owner: request.leaf_owner,
            merkle_tree: request.merkle_tree,
            root: request.root,
            data_hash: request.data_hash,
            creator_hash: request.creator_hash,
            nonce: request.nonce,
            index: request.index,
            locked_at,
        },
    );
    Ok(calculate_fraction_amount(&request.data_hash, &request.creator_hash))
}

/// First step of an unlock (see `begin_unlock_spec`). `balance` is the
/// caller's fraction balance.
pub fn begin_unlock(
    ledger: &VaultLedger,
    merkle_tree: &[u8; 32],
    nonce: u64,
    caller: &[u8; 32],
    vault_address: &[u8; 32],
    balance: u64,
) -> (r: Result<TransferRequest, ErrorCode>)
    requires
        unique_items(ledger@),
    ensures
        r == begin_unlock_spec(ledger@, merkle_tree@, nonce, caller@, *vault_address, balance),
{
    match ledger.get(merkle_tree, nonce) {
        None => Err(ErrorCode::NFTNotInVault),
        Some(v) => {
            if !keys_equal(&v.owner, caller) {
                return Err(ErrorCode::InvalidOwner);
            }
            if balance < calculate_fraction_amount(&v.data_hash, &v.creator_hash) {
                return Err(ErrorCode::InsufficientFractionBalance);
            }
            Ok(
                TransferRequest {
                    leaf_owner: *vault_address,
                    leaf_delegate: *vault_address,
                    new_leaf_owner: v.owner,
                    merkle_tree: v.merkle_tree,
                    root: v.root,
                    data_hash: v.data_hash,
                    creator_hash: v.creator_hash,
                    nonce: v.nonce,
                    index: v.index,
                },
            )
        },
    }
}

/// Second step of an unlock (see `complete_unlock_spec`): returns the
/// quantity of fraction tokens to burn from the owner.
pub fn complete_unlock(
    ledger: &mut VaultLedger,
    merkle_tree: &[u8; 32],
    nonce: u64,
    caller: &[u8; 32],
    outcome: TransitionOutcome,
) -> (r: Result<u64, ErrorCode>)
    requires
        unique_items(old(ledger)@),
    ensures
        unique_items(final(ledger)@),
        (final(ledger)@, r) == complete_unlock_spec(old(ledger)@, merkle_tree@, nonce, caller@, outcome),
{
    match ledger.find(merkle_tree, nonce) {
        None => Err(ErrorCode::NFTNotInVault),
        Some(i) => {
            proof {
                lemma_position_of(ledger@, merkle_tree@, nonce, i as int);
            }
            let v = ledger.vault_at(i);
            if !keys_equal(&v.owner, caller) {
                return Err(ErrorCode::InvalidOwner);
            }
            if outcome != TransitionOutcome::Committed {
                return Err(transition_error_of(outcome));
            }
            let v = ledger.remove(i);
            Ok(calculate_fraction_amount(&v.data_hash, &v.creator_hash))
        },
    }
}

proof fn lemma_push_keeps_unique(s: Seq<Vault>, v: Vault)
    requires
        unique_items(s),
        !holds(s, v.merkle_tree@, v.nonce),
    ensures
        unique_items(s.push(v)),
        holds(s.push(v), v.merkle_tree@, v.nonce),
        position_of(s.push(v), v.merkle_tree@, v.nonce) == s.len(),
{
    let t = s.push(v);
    assert forall|i: int, j: int|
        0 <= i < t.len() && 0 <= j < t.len() && i != j implies #[trigger] key_of(t[i])
        != #[trigger] key_of(t[j]) by {
        if i == s.len() {
            assert(key_of(s[j]) != key_of(v));
        } else if j == s.len() {
            assert(key_of(s[i]) != key_of(v));
        } else {
            assert(key_of(s[i]) != key_of(s[j]));
        }
    }
    lemma_position_of(t, v.merkle_tree@, v.nonce, s.len() as int);
}

/// Locking an item and then, at once, unlocking it as its owner leaves the
/// ledger as it was, burns exactly the quantity that was minted, starts
/// from the leaf that the lock left, and puts back the leaf that stood
/// before the lock: same owner and delegate, same content, hence the same
/// node.
pub proof fn lemma_lock_unlock_round_trip(
    ledger: Seq<Vault>,
    owner: [u8; 32],
    vault_address: [u8; 32],
    merkle_tree: [u8; 32],
    computed_data_hash: Option<Seq<u8>>,
    creators: Seq<CreatorRecord>,
    root: [u8; 32],
    data_hash: [u8; 32],
    creator_hash: [u8; 32],
    nonce: u64,
    index: u32,
    locked_at: i64,
    balance: u64,
    asset_id: [u8; 32],
)
    requires
        unique_items(ledger),
        begin_lock_spec(
            ledger,
            owner,
            vault_address,
            merkle_tree,
            computed_data_hash,
            creators,
            root,
            data_hash,
            creator_hash,
            nonce,
            index,
        ) is Ok,
        balance >= fraction_amount_spec(data_hash@, creator_hash@),
    ensures
        ({
            let lock_request = begin_lock_spec(
                ledger,
                owner,
                vault_address,
                merkle_tree,
                computed_data_hash,
                creators,
                root,
                data_hash,
                creator_hash,
                nonce,
                index,
            )->Ok_0;
            let (locked, minted) = complete_lock_spec(
                ledger,
                lock_request,
                TransitionOutcome::Committed,
                locked_at,
            );
            let unlock_request = begin_unlock_spec(
                locked,
                merkle_tree@,
                nonce,
                owner@,
                vault_address,
                balance,
            );
            let (unlocked, burned) = complete_unlock_spec(
                locked,
                merkle_tree@,
                nonce,
                owner@,
                TransitionOutcome::Committed,
            );
            &&& minted == Ok::<u64, ErrorCode>(fraction_amount_spec(data_hash@, creator_hash@))
            &&& burned == minted
            &&& unlocked == ledger
            &&& unlock_request is Ok
            &&& previous_leaf(unlock_request->Ok_0, asset_id) == new_leaf(lock_request, asset_id)
            &&& new_leaf(unlock_request->Ok_0, asset_id) == previous_leaf(lock_request, asset_id)
            &&& leaf_node_spec(new_leaf(unlock_request->Ok_0, asset_id)) == leaf_node_spec(
                previous_leaf(lock_request, asset_id),
            )
        }),
{
    let lock_request = begin_lock_spec(
        ledger,
        owner,
        vault_address,
        merkle_tree,
        computed_data_hash,
        creators,
        root,
        data_hash,
        creator_hash,
        nonce,
        index,
    )->Ok_0;
    let v = vault_for(lock_request, locked_at);
    lemma_push_keeps_unique(ledger, v);
    let locked = ledger.push(v);
    assert(vault_of(locked, merkle_tree@, nonce) == v);
    assert(locked.remove(ledger.len() as int) =~= ledger);
    let unlock_request = begin_unlock_spec(locked, merkle_tree@, nonce, owner@, vault_address, balance)->Ok_0;
    lemma_leaf_node_of_equal_fields(new_leaf(unlock_request, asset_id), previous_leaf(lock_request, asset_id));
}

/// Once a lock of an item has committed, any further lock of the same
/// item, by any caller and with any arguments, is refused as already
/// locked, at either step.
pub proof fn lemma_second_lock_refused(
    ledger: Seq<Vault>,
    request: TransferRequest,
    locked_at: i64,
    other_owner: [u8; 32],
    other_vault_address: [u8; 32],
    computed_data_hash: Option<Seq<u8>>,
    creators: Seq<CreatorRecord>,
    root: [u8; 32],
    data_hash: [u8; 32],
    creator_hash: [u8; 32],
    index: u32,
    other_request: TransferRequest,
    other_locked_at: i64,
)
    requires
        unique_items(ledger),
        complete_lock_spec(ledger, request, TransitionOutcome::Committed, locked_at).1 is Ok,
        other_request.merkle_tree@ == request.merkle_tree@,
        other_request.nonce == request.nonce,
    ensures
        ({
            let locked = complete_lock_spec(ledger, request, TransitionOutcome::Committed, locked_at).0;
            &&& begin_lock_spec(
                locked,
                other_owner,
                other_vault_address,
                request.merkle_tree,
                computed_data_hash,
                creators,
                root,
                data_hash,
                creator_hash,
                request.nonce,
                index,
            ) == Err::<TransferRequest, ErrorCode>(ErrorCode::AlreadyLocked)
            &&& complete_lock_spec(locked, other_request, TransitionOutcome::Committed, other_locked_at)
                == (locked, Err::<u64, ErrorCode>(ErrorCode::AlreadyLocked))
        }),
{
    lemma_push_keeps_unique(ledger, vault_for(request, locked_at));
}

/// A lock whose recomputed data hash, or the hash of a non-empty creator
/// set, differs from the claimed one is refused as a content mismatch at
/// its first step, so no transition is requested and no vault recorded.
pub proof fn lemma_content_mismatch_refused(
    ledger: Seq<Vault>,
    owner: [u8; 32],
    vault_address: [u8; 32],
    merkle_tree: [u8; 32],
    computed_data_hash: Option<Seq<u8>>,
    creators: Seq<CreatorRecord>,
    root: [u8; 32],
    data_hash: [u8; 32],
    creator_hash: [u8; 32],
    nonce: u64,
    index: u32,
)
    requires
        !holds(ledger, merkle_tree@, nonce),
        computed_data_hash != Some(data_hash@) || (creators.len() > 0 && creators_hash_spec(creators)
            != creator_hash@),
    ensures
        begin_lock_spec(
            ledger,
            owner,
            vault_address,
            merkle_tree,
            computed_data_hash,
            creators,
            root,
            data_hash,
            creator_hash,
            nonce,
            index,
        ) == Err::<TransferRequest, ErrorCode>(ErrorCode::DataHashMismatch),
{
}

/// An unlock by anyone but the vault's owner is refused at both steps, and
/// the ledger is left as it was.
pub proof fn lemma_unlock_by_other_refused(
    ledger: Seq<Vault>,
    merkle_tree: Seq<u8>,
    nonce: u64,
    caller: Seq<u8>,
    vault_address: [u8; 32],
    balance: u64,
    outcome: TransitionOutcome,
)
    requires
        holds(ledger, merkle_tree, nonce),
        vault_of(ledger, merkle_tree, nonce).owner@ != caller,
    ensures
        begin_unlock_spec(ledger, merkle_tree, nonce, caller, vault_address, balance) == Err::<
            TransferRequest,
            ErrorCode,
        >(ErrorCode::InvalidOwner),
        complete_unlock_spec(ledger, merkle_tree, nonce, caller, outcome) == (
            ledger,
            Err::<u64, ErrorCode>(ErrorCode::InvalidOwner),
        ),
{
}

/// An unlock by the owner whose fraction balance is below the item's
/// quantity is refused before any transition is requested.
pub proof fn lemma_insufficient_balance_refused(
    ledger: Seq<Vault>,
    merkle_tree: Seq<u8>,
    nonce: u64,
    vault_address: [u8; 32],
    balance: u64,
)
    requires
        holds(ledger, merkle_tree, nonce),
        balance < fraction_amount_spec(
            vault_of(ledger, merkle_tree, nonce).data_hash@,
            vault_of(ledger, merkle_tree, nonce).creator_hash@,
        ),
    ensures
        begin_unlock_spec(
            ledger,
            merkle_tree,
            nonce,
            vault_of(ledger, merkle_tree, nonce).owner@,
            vault_address,
            balance,
        ) == Err::<TransferRequest, ErrorCode>(ErrorCode::InsufficientFractionBalance),
{
}

/// A transition that the service rejects, a stale root among them, records
/// no vault and deletes none: the ledger is left as it was.
pub proof fn lemma_rejected_transition_changes_nothing(
    ledger: Seq<Vault>,
    request: TransferRequest,
    locked_at: i64,
    merkle_tree: Seq<u8>,
    nonce: u64,
    caller: Seq<u8>,
    outcome: TransitionOutcome,
)
    requires
        outcome != TransitionOutcome::Committed,
    ensures
        complete_lock_spec(ledger, request, outcome, locked_at) == (
            ledger,
            Err::<u64, ErrorCode>(transition_error(outcome)),
        ),
        complete_unlock_spec(ledger, merkle_tree, nonce, caller, outcome).0 == ledger,
        complete_unlock_spec(ledger, merkle_tree, nonce, caller, outcome).1 is Err,
{
}

} // verus!
