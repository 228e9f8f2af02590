//! Custody vault for compressed collectibles: an item whose ownership is a
//! leaf of an external Merkle tree is locked into a vault in exchange for a
//! deterministic quantity of fraction tokens, and redeemed by burning them.

pub mod authenticate;
pub mod error;
pub mod fraction;
pub mod keys;
pub mod leaf;
pub mod ledger;
pub mod protocol;
pub mod state;
pub mod transfer;
