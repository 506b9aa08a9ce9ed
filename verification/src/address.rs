use vstd::prelude::*;
use vstd::slice::slice_to_vec;
use crate::record::Address;

verus! {

/// What `Pubkey::try_find_program_address` returns for the given seed
/// list and deriving program: a deterministic function of those
/// arguments alone. `None` marks the statistically improbable case
/// that no viable derivation salt exists.
pub uninterp spec fn pda_of(seeds: Seq<Seq<u8>>, program_id: Seq<u8>) -> Option<(Seq<u8>, u8)>;

/// Relies on `solana_pubkey::Pubkey::try_find_program_address` (the
/// type `anchor_lang` re-exports as its `Pubkey`): a deterministic
/// search over derivation salts, computed from the seed list and the
/// deriving program's identity alone; the returned address is 32 raw
/// bytes, and `None` comes only when no salt yields a valid address.
#[verifier::external_body]
fn try_find_address(seeds: &Vec<Vec<u8>>, program_id: &Address) -> (r: Option<(Address, u8)>)
    ensures
        r is Some <==> pda_of(seeds.deep_view(), program_id@) is Some,
        (r matches Some((a, b)) ==> pda_of(seeds.deep_view(), program_id@) == Some((a@, b))),
{
    let seed_slices: Vec<&[u8]> = seeds.iter().map(|s| s.as_slice()).collect();
    let program = solana_pubkey::Pubkey::new_from_array(*program_id);
    solana_pubkey::Pubkey::try_find_program_address(&seed_slices, &program).map(
        |found: (solana_pubkey::Pubkey, u8)| (found.0.to_bytes(), found.1),
    )
}

/// The namespace prefix of every token-record address: the bytes of
/// the string `token-record`.
pub open spec fn seed_prefix_spec() -> Seq<u8> {
    seq![116u8, 111u8, 107u8, 101u8, 110u8, 45u8, 114u8, 101u8, 99u8, 111u8, 114u8, 100u8]
}

/// Builds the namespace prefix, byte by byte.
pub fn seed_prefix() -> (r: Vec<u8>)
    ensures
        r@ == seed_prefix_spec(),
{
    let mut v: Vec<u8> = Vec::new();
    v.push(116);  // t
    v.push(111);  // o
    v.push(107);  // k
    v.push(101);  // e
    v.push(110);  // n
    v.push(45);  // -
    v.push(114);  // r
    v.push(101);  // e
    v.push(99);  // c
    v.push(111);  // o
    v.push(114);  // r
    v.push(100);  // d
    proof {
        assert(v@ =~= seed_prefix_spec());
    }
    v
}

/// The storage address and salt of the token record for a mint
/// identity: derived from the namespace prefix and the mint's raw
/// bytes, under the given program identity. A pure function of those
/// two inputs.
pub open spec fn record_address(program_id: Seq<u8>, mint: Seq<u8>) -> Option<(Seq<u8>, u8)> {
    pda_of(seq![seed_prefix_spec(), mint], program_id)
}

/// Derives the deterministic storage address of the token record for
/// `mint`, together with the derivation salt that makes the address
/// re-verifiable later.
pub fn derive_record_address(program_id: &Address, mint: &Address) -> (r: Option<(Address, u8)>)
    ensures
        r is Some <==> record_address(program_id@, mint@) is Some,
        (r matches Some((a, b)) ==> record_address(program_id@, mint@) == Some((a@, b))),
{
    let mut seeds: Vec<Vec<u8>> = Vec::new();
    seeds.push(seed_prefix());
    seeds.push(slice_to_vec(mint.as_slice()));
    proof {
        assert(seeds.deep_view() =~~= seq![seed_prefix_spec(), mint@]);
    }
    try_find_address(&seeds, program_id)
}

/// Address derivation is a pure function: deriving twice from the same
/// mint identity, under the same program, yields the same address and
/// the same salt.
pub proof fn lemma_address_derivation_deterministic(program_id: Seq<u8>, m1: Seq<u8>, m2: Seq<u8>)
    requires
        m1 == m2,
    ensures
        record_address(program_id, m1) == record_address(program_id, m2),
{
}

} // verus!
