use solana_cnft::fraction::{
    calculate_fraction_amount, fraction_amount_from_digest, le_u64_prefix, FRACTION_AMOUNT_SPAN,
    MIN_FRACTION_AMOUNT,
};

fn digest_with_prefix(prefix: &[u8]) -> [u8; 32] {
    let mut d = [0xffu8; 32];
    d[..prefix.len()].copy_from_slice(prefix);
    d
}

#[test]
fn le_prefix_reads_first_eight_bytes_little_endian() {
    let d = digest_with_prefix(&[1, 2, 3, 4, 5, 6, 7, 8]);
    assert_eq!(le_u64_prefix(&d), 0x0807060504030201);
    let z = digest_with_prefix(&[0, 0, 0, 0, 0, 0, 0, 0]);
    assert_eq!(le_u64_prefix(&z), 0);
    let m = [0xffu8; 32];
    assert_eq!(le_u64_prefix(&m), u64::MAX);
}

#[test]
fn amount_from_digest_exact_values() {
    assert_eq!(fraction_amount_from_digest(&digest_with_prefix(&[1, 0, 0, 0, 0, 0, 0, 0])), 101);
    // 10000 = 0x2710: 10000 % 9900 + 100
    assert_eq!(fraction_amount_from_digest(&digest_with_prefix(&[0x10, 0x27, 0, 0, 0, 0, 0, 0])), 200);
    assert_eq!(fraction_amount_from_digest(&digest_with_prefix(&[0, 0, 0, 0, 0, 0, 0, 0])), 100);
    // 9899 = 0x26ab: the largest amount
    assert_eq!(fraction_amount_from_digest(&digest_with_prefix(&[0xab, 0x26, 0, 0, 0, 0, 0, 0])), 9999);
    // u64::MAX % 9900 == 15
    assert_eq!(fraction_amount_from_digest(&[0xffu8; 32]), 115);
}

#[test]
fn fraction_amount_matches_keccak_of_both_hashes() {
    let data_hash = [7u8; 32];
    let creator_hash = [9u8; 32];
    let mut combined = data_hash.to_vec();
    combined.extend_from_slice(&creator_hash);
    let digest = solana_program::keccak::hashv(&[&combined]).to_bytes();
    let expected = u64::from_le_bytes(digest[0..8].try_into().unwrap()) % 9900 + 100;
    assert_eq!(calculate_fraction_amount(&data_hash, &creator_hash), expected);
    assert_eq!(calculate_fraction_amount(&data_hash, &creator_hash), fraction_amount_from_digest(&digest));
}

#[test]
fn fraction_amount_is_deterministic_and_in_range() {
    for seed in 0u8..40 {
        let d = [seed; 32];
        let c = [seed.wrapping_mul(31).wrapping_add(5); 32];
        let a = calculate_fraction_amount(&d, &c);
        let b = calculate_fraction_amount(&d, &c);
        assert_eq!(a, b);
        assert!(a >= 100 && a < 10000);
        assert!(a >= MIN_FRACTION_AMOUNT && a < MIN_FRACTION_AMOUNT + FRACTION_AMOUNT_SPAN);
    }
}

#[test]
fn fraction_amount_depends_on_order_of_hashes() {
    let d = [1u8; 32];
    let c = [2u8; 32];
    let mut dc = d.to_vec();
    dc.extend_from_slice(&c);
    let mut cd = c.to_vec();
    cd.extend_from_slice(&d);
    let e1 = fraction_amount_from_digest(&solana_program::keccak::hashv(&[&dc]).to_bytes());
    let e2 = fraction_amount_from_digest(&solana_program::keccak::hashv(&[&cd]).to_bytes());
    assert_eq!(calculate_fraction_amount(&d, &c), e1);
    assert_eq!(calculate_fraction_amount(&c, &d), e2);
}
