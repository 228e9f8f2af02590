//! Fraction issuance rule: the number of fraction tokens that an item is
//! worth is read from the keccak-256 digest of its two content hashes.

use vstd::prelude::*;
use crate::keys::byte_base;

verus! {

/// The keccak-256 digest of a byte string.
pub uninterp spec fn keccak256_of(data: Seq<u8>) -> Seq<u8>;

/// Relies on `solana_program::keccak::hashv` over a single slice: the
/// keccak-256 digest of `data`, which depends on the bytes alone.
#[verifier::external_body]
pub(crate) fn keccak256(data: &Vec<u8>) -> (r: [u8; 32])
    ensures
        r@ == keccak256_of(data@),
{
    solana_program::keccak::hashv(&[data.as_slice()]).to_bytes()
}

/// Smallest quantity issued for an item.
pub const MIN_FRACTION_AMOUNT: u64 = 100;

/// Width of the range of quantities: issued amounts lie in
/// `[MIN_FRACTION_AMOUNT, MIN_FRACTION_AMOUNT + FRACTION_AMOUNT_SPAN)`.
pub const FRACTION_AMOUNT_SPAN: u64 = 9900;

/// The unsigned integer whose little-endian encoding is `s`.
pub open spec fn le_value(s: Seq<u8>) -> nat
    decreases s.len(),
{
    if s.len() == 0 {
        0
    } else {
        s[0] as nat + 256 * le_value(s.drop_first())
    }
}

/// The quantity that a digest stands for: its first eight bytes read as a
/// little-endian integer, reduced into the issuance range.
pub open spec fn amount_from_digest_spec(digest: Seq<u8>) -> u64 {
    ((le_value(digest.subrange(0, 8)) % (FRACTION_AMOUNT_SPAN as nat)) + MIN_FRACTION_AMOUNT) as u64
}

/// The quantity issued for an item with these content hashes.
pub open spec fn fraction_amount_spec(data_hash: Seq<u8>, creator_hash: Seq<u8>) -> u64 {
    amount_from_digest_spec(keccak256_of(data_hash + creator_hash))
}

proof fn lemma_le_value_bound(s: Seq<u8>)
    ensures
        le_value(s) < byte_base(s.len()),
    decreases s.len(),
{
    if s.len() > 0 {
        lemma_le_value_bound(s.drop_first());
        let rest = le_value(s.drop_first());
        let p = byte_base((s.len() - 1) as nat);
        assert(s[0] as nat + 256 * rest < 256 * p) by (nonlinear_arith)
            requires
                rest < p,
                s[0] < 256,
        ;
    }
}

proof fn lemma_byte_base_monotone(a: nat, b: nat)
    requires
        a <= b,
    ensures
        byte_base(a) <= byte_base(b),
    decreases b,
{
    if a < b {
        lemma_byte_base_monotone(a, (b - 1) as nat);
    }
}

/// Reads `b[0..8]` as a little-endian unsigned integer.
pub fn le_u64_prefix(b: &[u8; 32]) -> (r: u64)
    ensures
        r as nat == le_value(b@.subrange(0, 8)),
{
    assert(byte_base(7) == 72057594037927936) by {
        reveal_with_fuel(byte_base, 8);
    }
    let mut acc: u64 = 0;
    let mut i: usize = 8;
    assert(b@.subrange(8, 8) =~= Seq::<u8>::empty());
    while i > 0
        invariant
            i <= 8,
            acc as nat == le_value(b@.subrange(i as int, 8)),
            (acc as nat) < byte_base((8 - i) as nat),
            byte_base(7) == 72057594037927936,
        decreases i,
    {
        let byte = b[i - 1];
        assert(b@.subrange(i - 1, 8).drop_first() =~= b@.subrange(i as int, 8));
        proof {
            lemma_byte_base_monotone((8 - i) as nat, 7);
        }
        assert(acc * 256 + byte < 256 * byte_base((8 - i) as nat) <= 18446744073709551616) by (nonlinear_arith)
            requires
                acc < byte_base((8 - i) as nat),
                byte_base((8 - i) as nat) <= 72057594037927936,
                byte < 256,
        ;
        acc = acc * 256 + byte as u64;
        i = i - 1;
    }
    acc
}

/// The quantity that a digest stands for (see `amount_from_digest_spec`).
pub fn fraction_amount_from_digest(digest: &[u8; 32]) -> (r: u64)
    ensures
        r == amount_from_digest_spec(digest@),
        MIN_FRACTION_AMOUNT <= r < MIN_FRACTION_AMOUNT + FRACTION_AMOUNT_SPAN,
{
    let base = le_u64_prefix(digest);
    base % FRACTION_AMOUNT_SPAN + MIN_FRACTION_AMOUNT
}

/// The number of fraction tokens minted when an item with these content
/// hashes is locked, and burned when it is redeemed.
pub fn calculate_fraction_amount(data_hash: &[u8; 32], creator_hash: &[u8; 32]) -> (r: u64)
    ensures
        r == fraction_amount_spec(data_hash@, creator_hash@),
        MIN_FRACTION_AMOUNT <= r < MIN_FRACTION_AMOUNT + FRACTION_AMOUNT_SPAN,
{
    let mut combined: Vec<u8> = Vec::with_capacity(64);
    let mut i: usize = 0;
    while i < 32
        invariant
            i <= 32,
            combined@ =~= data_hash@.subrange(0, i as int),
        decreases 32 - i,
    {
        combined.push(data_hash[i]);
        i = i + 1;
    }
    let mut j: usize = 0;
    while j < 32
        invariant
            j <= 32,
            combined@ =~= data_hash@ + creator_hash@.subrange(0, j as int),
        decreases 32 - j,
    {
        combined.push(creator_hash[j]);
        j = j + 1;
    }
    assert(creator_hash@.subrange(0, 32) =~= creator_hash@);
    assert(combined@ =~= data_hash@ + creator_hash@);
    let digest = keccak256(&combined);
    fraction_amount_from_digest(&digest)
}

/// Whatever the content hashes, the issued quantity lies in `[100, 10000)`.
pub proof fn lemma_fraction_amount_in_range(data_hash: Seq<u8>, creator_hash: Seq<u8>)
    ensures
        MIN_FRACTION_AMOUNT <= fraction_amount_spec(data_hash, creator_hash) < MIN_FRACTION_AMOUNT
            + FRACTION_AMOUNT_SPAN,
{
}

} // verus!
