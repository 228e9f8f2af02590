use solana_cnft::keys::{keys_equal, le_encode, program_id};
use solana_cnft::transfer::{transfer_instruction, TransferRequest};
use solana_cnft::state::{
    assert_vault_owner, find_authority, find_tree_authority, get_asset_id, Vault,
};
use solana_cnft::error::ErrorCode;
use solana_program::pubkey::Pubkey;
use std::str::FromStr;

#[test]
fn le_encode_exact_bytes() {
    assert_eq!(le_encode(0x0102030405060708, 8), vec![8, 7, 6, 5, 4, 3, 2, 1]);
    assert_eq!(le_encode(258, 4), vec![2, 1, 0, 0]);
    assert_eq!(le_encode(u64::MAX, 8), vec![255; 8]);
    assert_eq!(le_encode(77, 0), Vec::<u8>::new());
    assert_eq!(le_encode(42, 8), 42u64.to_le_bytes().to_vec());
}

#[test]
fn keys_equal_compares_every_byte() {
    let a = [3u8; 32];
    let mut b = a;
    assert!(keys_equal(&a, &b));
    b[31] = 4;
    assert!(!keys_equal(&a, &b));
    b = a;
    b[0] = 0;
    assert!(!keys_equal(&a, &b));
}

fn compression_id() -> [u8; 32] {
    Pubkey::from_str("cmtDvXumGCrqC1Age74AVPhSRVXJMd8PJS91L8KbNCK").unwrap().to_bytes()
}

#[test]
fn program_ids_are_the_declared_ones() {
    assert_eq!(
        program_id(),
        Pubkey::from_str("91CLwQaCxutnTf8XafP3e6EmGBA3eUkMaw86Hgghax2L").unwrap().to_bytes()
    );
    let request = TransferRequest {
        leaf_owner: [1; 32],
        leaf_delegate: [1; 32],
        new_leaf_owner: [2; 32],
        merkle_tree: [3; 32],
        root: [4; 32],
        data_hash: [5; 32],
        creator_hash: [6; 32],
        nonce: 0,
        index: 0,
    };
    let ix = transfer_instruction(&[7; 32], &[3; 32], &[8; 32], &[9; 32], &request, &Vec::new());
    assert_eq!(
        ix.program_id,
        Pubkey::from_str("BGUMAp9Gq7iTEuizy4pqaxsTyUCBK68MDfK752saRPUY").unwrap().to_bytes()
    );
    assert_eq!(ix.accounts[6].key, [0u8; 32]);
}

#[test]
fn vault_address_is_derived_from_prefix_tree_and_nonce() {
    let tree = [5u8; 32];
    let nonce = 17u64;
    let program = Pubkey::new_from_array(program_id());
    let (expected, bump) = Pubkey::find_program_address(
        &[b"vault", &tree, &nonce.to_le_bytes()],
        &program,
    );
    assert_eq!(Vault::pda(&tree, nonce), Some((expected.to_bytes(), bump)));
    assert_ne!(Vault::pda(&tree, nonce), Vault::pda(&tree, nonce + 1));
}

#[test]
fn authorities_are_derived_addresses() {
    let tree = [8u8; 32];
    let (ta, tb) = Pubkey::find_program_address(&[&tree], &mpl_bubblegum::ID);
    assert_eq!(find_tree_authority(&tree), Some((ta.to_bytes(), tb)));
    let (a, b) = Pubkey::find_program_address(&[b"authority"], &Pubkey::new_from_array(program_id()));
    assert_eq!(find_authority(), Some((a.to_bytes(), b)));
}

#[test]
fn asset_id_matches_the_collectible_program() {
    let tree = [11u8; 32];
    let expected = mpl_bubblegum::utils::get_asset_id(&Pubkey::new_from_array(tree), 3);
    assert_eq!(get_asset_id(&tree, 3), Some(expected.to_bytes()));
}

fn vault_with_owner(owner: [u8; 32], tree: [u8; 32], nonce: u64) -> Vault {
    Vault {
        owner,
        merkle_tree: tree,
        root: [0; 32],
        data_hash: [1; 32],
        creator_hash: [2; 32],
        nonce,
        index: nonce as u32,
        locked_at: 1_700_000_000,
    }
}

#[test]
fn assert_vault_owner_checks_expected_owner_and_address() {
    let tree = [21u8; 32];
    let someone = [30u8; 32];
    let v = vault_with_owner(someone, tree, 4);
    assert_eq!(assert_vault_owner(&v, &[31u8; 32], &program_id()), Err(ErrorCode::InvalidOwner));
    // the owner is as expected but is not the vault's own address
    assert_eq!(assert_vault_owner(&v, &someone, &program_id()), Err(ErrorCode::InvalidOwner));
    let (pda, _) = Vault::pda(&tree, 4).unwrap();
    let w = vault_with_owner(pda, tree, 4);
    assert_eq!(assert_vault_owner(&w, &pda, &program_id()), Ok(()));
}

#[test]
fn validate_state_checks_owner_tree_owner_and_tree() {
    let tree = [40u8; 32];
    let owner = [41u8; 32];
    let v = vault_with_owner(owner, tree, 9);
    let compression = compression_id();
    assert_eq!(v.validate_state(&tree, &compression, &owner), Ok(()));
    assert_eq!(v.validate_state(&tree, &compression, &[42u8; 32]), Err(ErrorCode::InvalidOwner));
    assert_eq!(v.validate_state(&tree, &[0u8; 32], &owner), Err(ErrorCode::InvalidTreeOwner));
    assert_eq!(v.validate_state(&[43u8; 32], &compression, &owner), Err(ErrorCode::InvalidTreeState));
}

#[test]
fn vault_record_length() {
    assert_eq!(Vault::LEN, 188);
}
