//! Account keys as 32-byte values, the program identities that the vault
//! talks to, little-endian encodings, and program-derived addresses.

use vstd::prelude::*;

verus! {

/// `256^k` as an integer.
pub open spec fn byte_base(k: nat) -> nat
    decreases k,
{
    if k == 0 {
        1
    } else {
        256 * byte_base((k - 1) as nat)
    }
}

/// The first `n` bytes of the little-endian encoding of `v`.
pub open spec fn le_bytes(v: nat, n: nat) -> Seq<u8> {
    Seq::new(n, |i: int| ((v / byte_base(i as nat)) % 256) as u8)
}

/// Little-endian encoding of `v` in `n` bytes (`to_le_bytes` of an integer
/// of that width).
pub fn le_encode(v: u64, n: usize) -> (r: Vec<u8>)
    requires
        n <= 8,
    ensures
        r@ == le_bytes(v as nat, n as nat),
{
    let mut out: Vec<u8> = Vec::with_capacity(n);
    let mut x: u64 = v;
    let mut k: usize = 0;
    assert(byte_base(0) == 1);
    while k < n
        invariant
            k <= n,
            x as nat == v as nat / byte_base(k as nat),
            out@ =~= le_bytes(v as nat, k as nat),
        decreases n - k,
    {
        proof {
            lemma_byte_base_positive(k as nat);
            vstd::arithmetic::div_mod::lemma_div_denominator(v as int, byte_base(k as nat) as int, 256);
        }
        out.push((x % 256) as u8);
        x = x / 256;
        k = k + 1;
        assert(byte_base(k as nat) == byte_base((k - 1) as nat) * 256);
    }
    out
}

proof fn lemma_byte_base_positive(k: nat)
    ensures
        byte_base(k) > 0,
    decreases k,
{
    if k > 0 {
        lemma_byte_base_positive((k - 1) as nat);
    }
}

/// Whether two keys are the same.
pub fn keys_equal(a: &[u8; 32], b: &[u8; 32]) -> (r: bool)
    ensures
        r == (a@ == b@),
{
    let mut i: usize = 0;
    while i < 32
        invariant
            i <= 32,
            a@.subrange(0, i as int) == b@.subrange(0, i as int),
        decreases 32 - i,
    {
        if a[i] != b[i] {
            assert(a@[i as int] != b@[i as int]);
            return false;
        }
        assert(a@.subrange(0, i + 1) =~= a@.subrange(0, i as int).push(a@[i as int]));
        assert(b@.subrange(0, i + 1) =~= b@.subrange(0, i as int).push(b@[i as int]));
        i = i + 1;
    }
    assert(a@ =~= a@.subrange(0, 32));
    assert(b@ =~= b@.subrange(0, 32));
    true
}

/// This program's own identity.
pub open spec fn program_id_spec() -> Seq<u8> {
    seq![
        118u8, 234, 82, 100, 33, 220, 10, 83, 63, 120, 86, 63, 63, 202, 126, 6,
        102, 132, 82, 241, 255, 15, 233, 72, 246, 206, 221, 44, 1, 21, 94, 209,
    ]
}

/// This program's own identity,
/// `91CLwQaCxutnTf8XafP3e6EmGBA3eUkMaw86Hgghax2L`.
pub fn program_id() -> (r: [u8; 32])
    ensures
        r@ == program_id_spec(),
{
    let r: [u8; 32] = [
        118u8, 234, 82, 100, 33, 220, 10, 83, 63, 120, 86, 63, 63, 202, 126, 6,
        102, 132, 82, 241, 255, 15, 233, 72, 246, 206, 221, 44, 1, 21, 94, 209,
    ];
    assert(r@ =~= program_id_spec());
    r
}

/// The identity of the compressed-collectible program that owns the leaves.
pub open spec fn bubblegum_id_spec() -> Seq<u8> {
    seq![
        152u8, 139, 128, 235, 121, 53, 40, 105, 178, 36, 116, 95, 89, 221, 191, 138,
        38, 88, 202, 19, 220, 104, 129, 33, 38, 53, 28, 174, 7, 193, 165, 165,
    ]
}

/// Relies on `mpl_bubblegum::ID`, declared as
/// `BGUMAp9Gq7iTEuizy4pqaxsTyUCBK68MDfK752saRPUY`, whose bytes these are.
#[verifier::external_body]
pub(crate) fn bubblegum_program_id() -> (r: [u8; 32])
    ensures
        r@ == bubblegum_id_spec(),
{
    mpl_bubblegum::ID.to_bytes()
}

/// The identity of the account-compression program that owns the trees.
pub open spec fn compression_id_spec() -> Seq<u8> {
    seq![
        9u8, 42, 19, 238, 149, 196, 28, 186, 8, 166, 127, 90, 198, 126, 141, 247,
        225, 218, 17, 98, 94, 29, 100, 19, 127, 143, 79, 35, 131, 3, 127, 20,
    ]
}

/// Relies on `spl_account_compression::id()`, declared as
/// `cmtDvXumGCrqC1Age74AVPhSRVXJMd8PJS91L8KbNCK`, whose bytes these are.
#[verifier::external_body]
pub(crate) fn compression_program_id() -> (r: [u8; 32])
    ensures
        r@ == compression_id_spec(),
{
    spl_account_compression::id().to_bytes()
}

/// Relies on `solana_program::system_program::id()`, declared as
/// `11111111111111111111111111111111`: thirty-two zero bytes.
#[verifier::external_body]
pub(crate) fn system_program_id() -> (r: [u8; 32])
    ensures
        r@ == Seq::new(32, |i: int| 0u8),
{
    solana_program::system_program::id().to_bytes()
}

/// The program-derived address of `seeds` under `program_id`, with its bump
/// seed, or `None` where no bump gives an address off the curve or the seeds
/// are too many or too long.
pub uninterp spec fn program_address_of(seeds: Seq<Seq<u8>>, program_id: Seq<u8>) -> Option<(Seq<u8>, u8)>;

/// The seeds as byte strings.
pub open spec fn seeds_view(seeds: Seq<Vec<u8>>) -> Seq<Seq<u8>> {
    seeds.map_values(|s: Vec<u8>| s@)
}

/// A derived address with its bump, as byte strings.
pub open spec fn address_view(a: Option<([u8; 32], u8)>) -> Option<(Seq<u8>, u8)> {
    match a {
        Some((k, bump)) => Some((k@, bump)),
        None => None,
    }
}

/// Relies on `Pubkey::try_find_program_address`: it searches the bump seeds
/// from 255 down and returns the first derived address, or `None`; the
/// outcome depends on the seeds and the program id alone.
#[verifier::external_body]
pub(crate) fn find_program_address(seeds: &Vec<Vec<u8>>, program_id: &[u8; 32]) -> (r: Option<([u8; 32], u8)>)
    ensures
        address_view(r) == program_address_of(seeds_view(seeds@), program_id@),
{
    let slices: Vec<&[u8]> = seeds.iter().map(|s| s.as_slice()).collect();
    let program = solana_program::pubkey::Pubkey::new_from_array(*program_id);
    solana_program::pubkey::Pubkey::try_find_program_address(&slices, &program).map(
        |(k, bump)| (k.to_bytes(), bump),
    )
}

} // verus!
