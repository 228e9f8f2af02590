use mpl_bubblegum::types::{
    Collection, Creator, MetadataArgs, TokenProgramVersion, TokenStandard, UseMethod, Uses,
};
use solana_cnft::authenticate::{
    authenticate_content, compare_content_hashes, validate_metadata, CreatorRecord, MetadataRecord,
};
use solana_cnft::error::ErrorCode;
use solana_cnft::leaf::{leaf_node, LeafFields};
use solana_cnft::transfer::{
    create_transfer_data, transfer_instruction, transition_nodes, TransferRequest, TRANSFER_DATA_SIZE,
};
use solana_program::pubkey::Pubkey;

fn metadata(creators: Vec<Creator>) -> MetadataArgs {
    MetadataArgs {
        name: "Item".to_string(),
        symbol: "ITM".to_string(),
        uri: "https://example.com/item.json".to_string(),
        seller_fee_basis_points: 500,
        primary_sale_happened: false,
        is_mutable: true,
        edition_nonce: None,
        token_standard: Some(TokenStandard::NonFungible),
        collection: None,
        uses: None,
        token_program_version: TokenProgramVersion::Original,
        creators,
    }
}

fn record_of(m: &MetadataArgs) -> MetadataRecord {
    MetadataRecord {
        name: m.name.clone(),
        symbol: m.symbol.clone(),
        uri: m.uri.clone(),
        seller_fee_basis_points: m.seller_fee_basis_points,
        primary_sale_happened: m.primary_sale_happened,
        is_mutable: m.is_mutable,
        edition_nonce: m.edition_nonce,
        token_standard: m.token_standard.clone().map(|t| t as u8),
        collection: m.collection.as_ref().map(|c| (c.key.to_bytes(), c.verified)),
        uses: m.uses.as_ref().map(|u| (u.use_method.clone() as u8, u.remaining, u.total)),
        token_program_version: m.token_program_version.clone() as u8,
        creators: m
            .creators
            .iter()
            .map(|c| CreatorRecord { address: c.address.to_bytes(), verified: c.verified, share: c.share })
            .collect(),
    }
}

fn creators() -> Vec<Creator> {
    vec![
        Creator { address: Pubkey::new_from_array([1; 32]), verified: true, share: 60 },
        Creator { address: Pubkey::new_from_array([2; 32]), verified: false, share: 40 },
    ]
}

fn records() -> Vec<CreatorRecord> {
    vec![
        CreatorRecord { address: [1; 32], verified: true, share: 60 },
        CreatorRecord { address: [2; 32], verified: false, share: 40 },
    ]
}

#[test]
fn compare_accepts_matching_and_refuses_mismatch() {
    let d = [1u8; 32];
    let c = [2u8; 32];
    assert_eq!(compare_content_hashes(Some(d), Some(c), &d, &c), Ok(()));
    assert_eq!(compare_content_hashes(Some(d), None, &d, &[9u8; 32]), Ok(()));
    assert_eq!(compare_content_hashes(Some([3u8; 32]), Some(c), &d, &c), Err(ErrorCode::DataHashMismatch));
    assert_eq!(compare_content_hashes(Some(d), Some([3u8; 32]), &d, &c), Err(ErrorCode::DataHashMismatch));
    assert_eq!(compare_content_hashes(None, None, &d, &c), Err(ErrorCode::DataHashMismatch));
}

#[test]
fn creator_hash_is_recomputed_for_nonempty_set() {
    let d = [4u8; 32];
    let expected = mpl_bubblegum::hash::hash_creators(&creators());
    assert_eq!(authenticate_content(Some(d), &records(), &d, &expected), Ok(()));
    assert_eq!(
        authenticate_content(Some(d), &records(), &d, &[0u8; 32]),
        Err(ErrorCode::DataHashMismatch)
    );
    // an empty creator set is accepted whatever creator hash is claimed
    assert_eq!(authenticate_content(Some(d), &Vec::new(), &d, &[0u8; 32]), Ok(()));
}

#[test]
fn validate_metadata_recomputes_both_hashes() {
    let m = metadata(creators());
    let data_hash = mpl_bubblegum::hash::hash_metadata(&m).unwrap();
    let creator_hash = mpl_bubblegum::hash::hash_creators(&m.creators);
    assert_eq!(validate_metadata(record_of(&m), data_hash, creator_hash), Ok(()));
    let mut wrong = data_hash;
    wrong[0] ^= 1;
    assert_eq!(validate_metadata(record_of(&m), wrong, creator_hash), Err(ErrorCode::DataHashMismatch));
    assert_eq!(validate_metadata(record_of(&m), data_hash, [0u8; 32]), Err(ErrorCode::DataHashMismatch));
}

#[test]
fn validate_metadata_covers_collection_uses_and_codes() {
    let mut m = metadata(creators());
    m.token_standard = Some(TokenStandard::NonFungibleEdition);
    m.collection = Some(Collection { verified: true, key: Pubkey::new_from_array([8; 32]) });
    m.uses = Some(Uses { use_method: UseMethod::Single, remaining: 3, total: 5 });
    m.token_program_version = TokenProgramVersion::Token2022;
    m.edition_nonce = Some(254);
    let data_hash = mpl_bubblegum::hash::hash_metadata(&m).unwrap();
    let creator_hash = mpl_bubblegum::hash::hash_creators(&m.creators);
    let r = record_of(&m);
    assert_eq!(r.token_standard, Some(3));
    assert_eq!(r.uses, Some((2, 3, 5)));
    assert_eq!(r.token_program_version, 1);
    assert_eq!(validate_metadata(r, data_hash, creator_hash), Ok(()));
    // a different collection flag changes the data hash
    let mut other = record_of(&m);
    other.collection = Some(([8; 32], false));
    assert_eq!(validate_metadata(other, data_hash, creator_hash), Err(ErrorCode::DataHashMismatch));
    // a code that names no variant cannot be hashed
    let mut bad = record_of(&m);
    bad.token_standard = Some(4);
    assert_eq!(validate_metadata(bad, data_hash, creator_hash), Err(ErrorCode::DataHashMismatch));
    let mut bad_version = record_of(&m);
    bad_version.token_program_version = 2;
    assert_eq!(validate_metadata(bad_version, data_hash, creator_hash), Err(ErrorCode::DataHashMismatch));
}

#[test]
fn validate_metadata_without_creators_ignores_creator_hash() {
    let m = metadata(Vec::new());
    let data_hash = mpl_bubblegum::hash::hash_metadata(&m).unwrap();
    assert_eq!(validate_metadata(record_of(&m), data_hash, [77u8; 32]), Ok(()));
}

#[test]
fn leaf_node_hashes_the_versioned_encoding() {
    let leaf = LeafFields {
        asset_id: [1; 32],
        owner: [2; 32],
        delegate: [3; 32],
        nonce: 5,
        data_hash: [6; 32],
        creator_hash: [7; 32],
    };
    let expected = solana_program::keccak::hashv(&[
        &[1u8],
        &[1u8; 32],
        &[2u8; 32],
        &[3u8; 32],
        &5u64.to_le_bytes(),
        &[6u8; 32],
        &[7u8; 32],
    ])
    .to_bytes();
    assert_eq!(leaf_node(&leaf), expected);
    let swapped = LeafFields { owner: [3; 32], delegate: [2; 32], ..leaf };
    assert_ne!(leaf_node(&swapped), expected);
}

#[test]
fn transfer_data_layout() {
    let data = create_transfer_data(&[1; 32], &[2; 32], &[3; 32], 0x0102, 0x0304);
    assert_eq!(data.len(), TRANSFER_DATA_SIZE);
    assert_eq!(data.len(), 108);
    assert_eq!(&data[0..32], &[1u8; 32]);
    assert_eq!(&data[32..64], &[2u8; 32]);
    assert_eq!(&data[64..96], &[3u8; 32]);
    assert_eq!(&data[96..104], &[2, 1, 0, 0, 0, 0, 0, 0]);
    assert_eq!(&data[104..108], &[4, 3, 0, 0]);
}

#[test]
fn transfer_instruction_accounts_and_data() {
    let request = TransferRequest {
        leaf_owner: [2; 32],
        leaf_delegate: [2; 32],
        new_leaf_owner: [3; 32],
        merkle_tree: [4; 32],
        root: [9; 32],
        data_hash: [10; 32],
        creator_hash: [11; 32],
        nonce: 7,
        index: 7,
    };
    let proof = vec![[20u8; 32], [21u8; 32]];
    let ix = transfer_instruction(&[1; 32], &[4; 32], &[5; 32], &[6; 32], &request, &proof);
    assert_eq!(ix.program_id, mpl_bubblegum::ID.to_bytes());
    let got: Vec<([u8; 32], bool, bool)> =
        ix.accounts.iter().map(|a| (a.key, a.is_signer, a.is_writable)).collect();
    assert_eq!(
        got,
        vec![
            ([1; 32], false, false),
            ([2; 32], true, false),
            ([3; 32], false, false),
            ([4; 32], false, true),
            ([5; 32], false, false),
            ([6; 32], false, false),
            ([0; 32], false, false),
            ([20; 32], false, false),
            ([21; 32], false, false),
        ]
    );
    assert_eq!(ix.data, create_transfer_data(&[9; 32], &[10; 32], &[11; 32], 7, 7));
}

#[test]
fn error_messages() {
    assert_eq!(ErrorCode::InvalidOwner.message(), "Not the NFT owner");
    assert_eq!(ErrorCode::DataHashMismatch.message(), "Invalid metadata provided");
    assert_eq!(
        ErrorCode::InsufficientFractionBalance.message(),
        "Insufficient fraction token balance"
    );
}

#[test]
fn transition_nodes_before_and_after() {
    let request = TransferRequest {
        leaf_owner: [2; 32],
        leaf_delegate: [12; 32],
        new_leaf_owner: [3; 32],
        merkle_tree: [4; 32],
        root: [9; 32],
        data_hash: [10; 32],
        creator_hash: [11; 32],
        nonce: 7,
        index: 7,
    };
    let asset = [1u8; 32];
    let (before, after) = transition_nodes(&request, &asset);
    let expected_before = mpl_bubblegum::types::LeafSchema::V1 {
        id: Pubkey::new_from_array(asset),
        owner: Pubkey::new_from_array([2; 32]),
        delegate: Pubkey::new_from_array([12; 32]),
        nonce: 7,
        data_hash: [10; 32],
        creator_hash: [11; 32],
    }
    .hash();
    let expected_after = mpl_bubblegum::types::LeafSchema::V1 {
        id: Pubkey::new_from_array(asset),
        owner: Pubkey::new_from_array([3; 32]),
        delegate: Pubkey::new_from_array([3; 32]),
        nonce: 7,
        data_hash: [10; 32],
        creator_hash: [11; 32],
    }
    .hash();
    assert_eq!(before, expected_before);
    assert_eq!(after, expected_after);
    assert_ne!(before, after);
}

#[test]
fn creator_hash_is_keccak_of_concatenated_entries() {
    let d = [4u8; 32];
    let mut bytes = Vec::new();
    bytes.extend_from_slice(&[1u8; 32]);
    bytes.extend_from_slice(&[1, 60]);
    bytes.extend_from_slice(&[2u8; 32]);
    bytes.extend_from_slice(&[0, 40]);
    let expected = solana_program::keccak::hashv(&[&bytes]).to_bytes();
    assert_eq!(authenticate_content(Some(d), &records(), &d, &expected), Ok(()));
}

#[test]
fn recomputed_data_hash_matches_the_collectible_program() {
    let m = metadata(creators());
    let expected = mpl_bubblegum::hash::hash_metadata(&m).unwrap();
    assert_eq!(solana_cnft::authenticate::recompute_data_hash(record_of(&m)), Some(expected));
    let mut bad = record_of(&m);
    bad.uses = Some((3, 1, 1));
    assert!(!solana_cnft::authenticate::metadata_codes_valid(&bad));
    assert_eq!(solana_cnft::authenticate::recompute_data_hash(bad), None);
}
