//! Errors that the vault's operations report.

use vstd::prelude::*;

verus! {

/// Why an operation was refused. Every failure leaves the vault ledger, the
/// tree and the token balances as they were.
#[derive(Clone, Copy, Debug, PartialEq, Eq, Structural)]
pub enum ErrorCode {
    /// The caller is not the owner the operation requires.
    InvalidOwner,
    /// A recomputed content hash differs from the one supplied.
    DataHashMismatch,
    /// The tree service refused the caller's authority over the leaf.
    LeafAuthorityMustSign,
    /// The sibling path does not match the depth of the tree.
    InvalidProofLength,
    /// The root rebuilt from the proof is not the tree's current root.
    MerkleProofVerificationFailed,
    /// No vault holds the item.
    NFTNotInVault,
    /// The tree account is not owned by the compression program.
    InvalidTreeOwner,
    /// The tree account is not the one recorded in the vault.
    InvalidTreeState,
    /// The tree service could not apply the update.
    TreeUpdateFailed,
    /// The proof is malformed.
    InvalidProof,
    /// The tree's canopy cannot serve the proof.
    InvalidCanopyState,
    /// The caller holds fewer fraction tokens than redemption burns.
    InsufficientFractionBalance,
    /// A vault already holds the item.
    AlreadyLocked,
}

/// The message shown for an error.
pub open spec fn message_spec(e: ErrorCode) -> Seq<char> {
    match e {
        ErrorCode::InvalidOwner => "Not the NFT owner"@,
        ErrorCode::DataHashMismatch => "Invalid metadata provided"@,
        ErrorCode::LeafAuthorityMustSign => "Invalid leaf authority"@,
        ErrorCode::InvalidProofLength => "Invalid proof length"@,
        ErrorCode::MerkleProofVerificationFailed => "Merkle proof verification failed"@,
        ErrorCode::NFTNotInVault => "NFT not in vault"@,
        ErrorCode::InvalidTreeOwner => "Invalid tree owner"@,
        ErrorCode::InvalidTreeState => "Invalid tree state"@,
        ErrorCode::TreeUpdateFailed => "Tree update failed"@,
        ErrorCode::InvalidProof => "Invalid proof"@,
        ErrorCode::InvalidCanopyState => "Invalid canopy state"@,
        ErrorCode::InsufficientFractionBalance => "Insufficient fraction token balance"@,
        ErrorCode::AlreadyLocked => "NFT already locked in a vault"@,
    }
}

impl ErrorCode {
    /// The message shown for this error.
    pub fn message(&self) -> (r: String)
        ensures
            r@ == message_spec(*self),
    {
        match self {
            ErrorCode::InvalidOwner => String::from_str("Not the NFT owner"),
            ErrorCode::DataHashMismatch => String::from_str("Invalid metadata provided"),
            ErrorCode::LeafAuthorityMustSign => String::from_str("Invalid leaf authority"),
            ErrorCode::InvalidProofLength => String::from_str("Invalid proof length"),
            ErrorCode::MerkleProofVerificationFailed => String::from_str(
                "Merkle proof verification failed",
            ),
            ErrorCode::NFTNotInVault => String::from_str("NFT not in vault"),
            ErrorCode::InvalidTreeOwner => String::from_str("Invalid tree owner"),
            ErrorCode::InvalidTreeState => String::from_str("Invalid tree state"),
            ErrorCode::TreeUpdateFailed => String::from_str("Tree update failed"),
            ErrorCode::InvalidProof => String::from_str("Invalid proof"),
            ErrorCode::InvalidCanopyState => String::from_str("Invalid canopy state"),
            ErrorCode::InsufficientFractionBalance => String::from_str(
                "Insufficient fraction token balance",
            ),
            ErrorCode::AlreadyLocked => String::from_str("NFT already locked in a vault"),
        }
    }
}

} // verus!
