//! Hash authenticator: the content hashes that a caller claims for an item
//! are recomputed from its metadata and compared before anything is trusted.

use vstd::prelude::*;
use anchor_lang::AnchorDeserialize;
use mpl_bubblegum::hash::hash_metadata as metadata_digest;
use mpl_bubblegum::types::{
    Collection, Creator, MetadataArgs, TokenProgramVersion, TokenStandard, UseMethod, Uses,
};
use crate::error::ErrorCode;
use crate::fraction::keccak256_of;
use crate::keys::keys_equal;

verus! {

/// One entry of an item's creator set.
#[derive(Clone, Copy, Debug)]
pub struct CreatorRecord {
    pub address: [u8; 32],
    pub verified: bool,
    pub share: u8,
}

/// A creator entry as plain values.
pub open spec fn creator_view(c: CreatorRecord) -> (Seq<u8>, bool, u8) {
    (c.address@, c.verified, c.share)
}

/// A creator set as plain values.
pub open spec fn creators_view(cs: Seq<CreatorRecord>) -> Seq<(Seq<u8>, bool, u8)> {
    cs.map_values(|c: CreatorRecord| creator_view(c))
}

/// The bytes hashed for a creator set: for each creator in order, its
/// address, its verified flag as one byte (1 or 0) and its share.
pub open spec fn creators_encoding(cs: Seq<(Seq<u8>, bool, u8)>) -> Seq<u8>
    decreases cs.len(),
{
    if cs.len() == 0 {
        Seq::empty()
    } else {
        cs[0].0 + seq![if cs[0].1 { 1u8 } else { 0u8 }, cs[0].2] + creators_encoding(cs.drop_first())
    }
}

/// The canonical hash of a creator set.
pub open spec fn creators_hash_spec(cs: Seq<CreatorRecord>) -> Seq<u8> {
    keccak256_of(creators_encoding(creators_view(cs)))
}

/// Relies on `mpl_bubblegum::hash::hash_creators`: `keccak::hashv` over, for
/// each creator in order, its address, `verified as u8` and its share,
/// which is the digest of their concatenation.
#[verifier::external_body]
pub(crate) fn hash_creators(creators: &Vec<CreatorRecord>) -> (r: [u8; 32])
    ensures
        r@ == creators_hash_spec(creators@),
{
    let list: Vec<Creator> = creators.iter().map(
        |c| Creator { address: c.address.into(), verified: c.verified, share: c.share },
    ).collect();
    mpl_bubblegum::hash::hash_creators(&list)
}

/// The metadata of a compressed item, as plain values. The enumerations are
/// held as the variant's position in the collectible program's
/// declaration: the token standard (0 non-fungible, 1 fungible asset,
/// 2 fungible, 3 non-fungible edition), the use method of `uses` (0 burn,
/// 1 multiple, 2 single) and the token program version (0 original,
/// 1 token-2022). `collection` is the collection's key and verified flag;
/// `uses` is the use method, the remaining and the total uses.
#[derive(Debug)]
pub struct MetadataRecord {
    pub name: String,
    pub symbol: String,
    pub uri: String,
    pub seller_fee_basis_points: u16,
    pub primary_sale_happened: bool,
    pub is_mutable: bool,
    pub edition_nonce: Option<u8>,
    pub token_standard: Option<u8>,
    pub collection: Option<([u8; 32], bool)>,
    pub uses: Option<(u8, u64, u64)>,
    pub token_program_version: u8,
    pub creators: Vec<CreatorRecord>,
}

/// A collection as plain values.
pub open spec fn collection_view(c: Option<([u8; 32], bool)>) -> Option<(Seq<u8>, bool)> {
    match c {
        Some((key, verified)) => Some((key@, verified)),
        None => None,
    }
}

/// The metadata as plain values.
pub open spec fn metadata_view(m: MetadataRecord) -> (
    (Seq<char>, Seq<char>, Seq<char>),
    (u16, bool, bool, Option<u8>),
    (Option<u8>, Option<(Seq<u8>, bool)>, Option<(u8, u64, u64)>, u8),
    Seq<(Seq<u8>, bool, u8)>,
) {
    (
        (m.name@, m.symbol@, m.uri@),
        (m.seller_fee_basis_points, m.primary_sale_happened, m.is_mutable, m.edition_nonce),
        (m.token_standard, collection_view(m.collection), m.uses, m.token_program_version),
        creators_view(m.creators@),
    )
}

/// Whether every enumeration code of the metadata names a variant.
pub open spec fn codes_valid(m: MetadataRecord) -> bool {
    &&& (m.token_standard matches Some(t) ==> t < 4)
    &&& (m.uses matches Some(u) ==> u.0 < 3)
    &&& m.token_program_version < 2
}

/// Whether the metadata's lengths fit the four-byte length prefixes of its
/// serialisation: at most 2^30 - 1 characters per string (four bytes each
/// at most) and fewer than 2^32 creators.
pub open spec fn lengths_fit(m: MetadataRecord) -> bool {
    &&& m.name@.len() < 0x4000_0000
    &&& m.symbol@.len() < 0x4000_0000
    &&& m.uri@.len() < 0x4000_0000
    &&& m.creators@.len() <= 0xffff_ffff
}

/// The data hash of the metadata.
pub uninterp spec fn metadata_hash_of(
    m: (
        (Seq<char>, Seq<char>, Seq<char>),
        (u16, bool, bool, Option<u8>),
        (Option<u8>, Option<(Seq<u8>, bool)>, Option<(u8, u64, u64)>, u8),
        Seq<(Seq<u8>, bool, u8)>,
    ),
) -> Seq<u8>;

/// The recomputed data hash: none where a code names no variant.
pub open spec fn recomputed_data_hash(m: MetadataRecord) -> Option<Seq<u8>> {
    if codes_valid(m) {
        Some(metadata_hash_of(metadata_view(m)))
    } else {
        None
    }
}

/// Relies on `mpl_bubblegum::hash::hash_metadata`, which depends on the
/// metadata alone and fails only where its borsh serialisation fails, on a
/// length beyond `u32`. Each code is turned into its enumeration by borsh
/// decoding of the one byte, which succeeds on a code that names a variant.
#[verifier::external_body]
fn hash_metadata(m: MetadataRecord) -> (r: Option<[u8; 32]>)
    requires
        lengths_fit(m),
        codes_valid(m),
    ensures
        hash_view(r) == Some(metadata_hash_of(metadata_view(m))),
{
    let MetadataRecord { name, symbol, uri, seller_fee_basis_points, primary_sale_happened, is_mutable,
        edition_nonce, token_standard, collection, uses, token_program_version, creators } = m;
    metadata_digest(&MetadataArgs { name, symbol, uri, seller_fee_basis_points, primary_sale_happened, is_mutable, edition_nonce,
        token_standard: token_standard.map(|t| TokenStandard::try_from_slice(&[t]).unwrap()),
        collection: collection.map(|(k, verified)| Collection { verified, key: k.into() }),
        uses: uses.map(|(u, remaining, total)| Uses { use_method: UseMethod::try_from_slice(&[u]).unwrap(), remaining, total }),
        token_program_version: TokenProgramVersion::try_from_slice(&[token_program_version]).unwrap(),
        creators: creators.into_iter().map(|CreatorRecord { address, verified, share }| Creator { address: address.into(), verified, share }).collect()
    }).ok()
}

/// Whether every enumeration code of the metadata names a variant.
pub fn metadata_codes_valid(m: &MetadataRecord) -> (r: bool)
    ensures
        r == codes_valid(*m),
{
    let standard_ok = match m.token_standard {
        Some(t) => t < 4,
        None => true,
    };
    let uses_ok = match m.uses {
        Some(u) => u.0 < 3,
        None => true,
    };
    standard_ok && uses_ok && m.token_program_version < 2
}

/// The data hash recomputed from the metadata (see
/// `recomputed_data_hash`): none where a code names no variant.
pub fn recompute_data_hash(metadata: MetadataRecord) -> (r: Option<[u8; 32]>)
    requires
        lengths_fit(metadata),
    ensures
        hash_view(r) == recomputed_data_hash(metadata),
{
    if metadata_codes_valid(&metadata) {
        hash_metadata(metadata)
    } else {
        None
    }
}

/// A copy of a creator set.
pub fn copy_creators(creators: &Vec<CreatorRecord>) -> (r: Vec<CreatorRecord>)
    ensures
        r@ == creators@,
{
    let mut r: Vec<CreatorRecord> = Vec::with_capacity(creators.len());
    let mut i: usize = 0;
    while i < creators.len()
        invariant
            i <= creators@.len(),
            r@ =~= creators@.subrange(0, i as int),
        decreases creators@.len() - i,
    {
        r.push(creators[i]);
        i = i + 1;
    }
    assert(creators@.subrange(0, creators@.len() as int) =~= creators@);
    r
}

/// The outcome of comparing recomputed hashes with the claimed ones. A
/// missing data hash (the metadata could not be hashed) is a mismatch; a
/// missing creator hash stands for an empty creator set, which is accepted
/// whatever creator hash is claimed.
pub open spec fn compare_spec(
    computed_data_hash: Option<Seq<u8>>,
    computed_creator_hash: Option<Seq<u8>>,
    data_hash: Seq<u8>,
    creator_hash: Seq<u8>,
) -> Result<(), ErrorCode> {
    match computed_data_hash {
        None => Err(ErrorCode::DataHashMismatch),
        Some(d) => if d != data_hash {
            Err(ErrorCode::DataHashMismatch)
        } else {
            match computed_creator_hash {
                Some(c) => if c != creator_hash {
                    Err(ErrorCode::DataHashMismatch)
                } else {
                    Ok(())
                },
                None => Ok(()),
            }
        },
    }
}

/// The creator hash recomputed from a creator set: none for an empty set.
pub open spec fn recomputed_creator_hash(creators: Seq<CreatorRecord>) -> Option<Seq<u8>> {
    if creators.len() == 0 {
        None
    } else {
        Some(creators_hash_spec(creators))
    }
}

/// The outcome of authenticating claimed hashes against a metadata digest
/// and a creator set.
pub open spec fn authenticate_spec(
    computed_data_hash: Option<Seq<u8>>,
    creators: Seq<CreatorRecord>,
    data_hash: Seq<u8>,
    creator_hash: Seq<u8>,
) -> Result<(), ErrorCode> {
    compare_spec(computed_data_hash, recomputed_creator_hash(creators), data_hash, creator_hash)
}

/// Hashes as byte strings.
pub open spec fn hash_view(h: Option<[u8; 32]>) -> Option<Seq<u8>> {
    match h {
        Some(b) => Some(b@),
        None => None,
    }
}

/// Compares recomputed hashes with the claimed ones (see `compare_spec`).
pub fn compare_content_hashes(
    computed_data_hash: Option<[u8; 32]>,
    computed_creator_hash: Option<[u8; 32]>,
    data_hash: &[u8; 32],
    creator_hash: &[u8; 32],
) -> (r: Result<(), ErrorCode>)
    ensures
        r == compare_spec(
            hash_view(computed_data_hash),
            hash_view(computed_creator_hash),
            data_hash@,
            creator_hash@,
        ),
{
    match computed_data_hash {
        None => Err(ErrorCode::DataHashMismatch),
        Some(d) => {
            if !keys_equal(&d, data_hash) {
                return Err(ErrorCode::DataHashMismatch);
            }
            match computed_creator_hash {
                Some(c) => if keys_equal(&c, creator_hash) {
                    Ok(())
                } else {
                    Err(ErrorCode::DataHashMismatch)
                },
                None => Ok(()),
            }
        },
    }
}

/// Authenticates the claimed hashes against the metadata's recomputed data
/// hash and its creator set, whose hash is recomputed here when it is not
/// empty.
pub fn authenticate_content(
    computed_data_hash: Option<[u8; 32]>,
    creators: &Vec<CreatorRecord>,
    data_hash: &[u8; 32],
    creator_hash: &[u8; 32],
) -> (r: Result<(), ErrorCode>)
    ensures
        r == authenticate_spec(hash_view(computed_data_hash), creators@, data_hash@, creator_hash@),
{
    let computed_creator_hash = if creators.len() == 0 {
        None
    } else {
        Some(hash_creators(creators))
    };
    compare_content_hashes(computed_data_hash, computed_creator_hash, data_hash, creator_hash)
}

/// Checks that `data_hash` and `creator_hash` are the hashes of `metadata`:
/// its data hash is recomputed, and so is the hash of its creator set when
/// that set is not empty.
pub fn validate_metadata(
    metadata: MetadataRecord,
    data_hash: [u8; 32],
    creator_hash: [u8; 32],
) -> (r: Result<(), ErrorCode>)
    requires
        lengths_fit(metadata),
    ensures
        r == authenticate_spec(
            recomputed_data_hash(metadata),
            metadata.creators@,
            data_hash@,
            creator_hash@,
        ),
{
    let creators = copy_creators(&metadata.creators);
    let digest = recompute_data_hash(metadata);
    authenticate_content(digest, &creators, &data_hash, &creator_hash)
}

} // verus!
