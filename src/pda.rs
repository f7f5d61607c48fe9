//! Derivation and verification of the vault's program address.
use vstd::prelude::*;
use vstd::slice::slice_to_vec;

use solana_address::Address;

verus! {

/// First seed of every vault address: the bytes of `vault`.
pub const VAULT_SEED: [u8; 5] = [0x76, 0x61, 0x75, 0x6c, 0x74];

pub open spec fn vault_tag() -> Seq<u8> {
    seq![0x76u8, 0x61u8, 0x75u8, 0x6cu8, 0x74u8]
}

/// The seeds of the vault that belongs to `owner`, without the salt.
pub open spec fn vault_seeds(owner: Seq<u8>) -> Seq<Seq<u8>> {
    seq![vault_tag(), owner]
}

pub open spec fn seeds_view(seeds: Seq<Vec<u8>>) -> Seq<Seq<u8>> {
    seeds.map_values(|s: Vec<u8>| s@)
}

/// The program address that the seed list and program identity give, or none
/// where the candidate is a valid public key (or the seeds are too many or too long).
pub uninterp spec fn program_address_of(seeds: Seq<Seq<u8>>, program_id: Seq<u8>) -> Option<Seq<u8>>;

/// The address that `seeds` followed by the one-byte salt `bump` give.
pub open spec fn bump_address(seeds: Seq<Seq<u8>>, bump: u8, program_id: Seq<u8>) -> Option<Seq<u8>> {
    program_address_of(seeds.push(seq![bump]), program_id)
}

/// `(address, bump)` is what the search over salts finds: the largest salt
/// from 255 down to 1 whose candidate is a program address.
pub open spec fn is_found_address(
    seeds: Seq<Seq<u8>>,
    program_id: Seq<u8>,
    address: Seq<u8>,
    bump: u8,
) -> bool {
    &&& 1 <= bump
    &&& bump_address(seeds, bump, program_id) == Some(address)
    &&& forall|c: u8| bump < c ==> (#[trigger] bump_address(seeds, c, program_id)) is None
}

/// No salt from 1 to 255 gives a program address.
pub open spec fn no_address_found(seeds: Seq<Seq<u8>>, program_id: Seq<u8>) -> bool {
    forall|c: u8| 1 <= c ==> (#[trigger] bump_address(seeds, c, program_id)) is None
}

/// Relies on `Address::create_program_address` of solana-address: hashes the
/// seeds with the program identity and refuses a candidate on the curve; the
/// result depends on the arguments alone.
#[verifier::external_body]
fn create_program_address(seeds: &Vec<Vec<u8>>, program_id: &[u8; 32]) -> (r: Option<[u8; 32]>)
    ensures
        match r {
            Some(a) => program_address_of(seeds_view(seeds@), program_id@) == Some(a@),
            None => program_address_of(seeds_view(seeds@), program_id@) is None,
        },
{
    let refs: Vec<&[u8]> = seeds.iter().map(|s| s.as_slice()).collect();
    match Address::create_program_address(&refs, &Address::new_from_array(*program_id)) {
        Ok(a) => Some(a.to_bytes()),
        Err(_) => None,
    }
}

/// Relies on `Address::try_find_program_address` of solana-address: tries the
/// salts 255 down to 1 through `create_program_address` and returns the first
/// address it gives, or none when every salt fails.
#[verifier::external_body]
fn try_find_program_address(seeds: &Vec<Vec<u8>>, program_id: &[u8; 32]) -> (r: Option<([u8; 32], u8)>)
    ensures
        match r {
            Some((a, b)) => is_found_address(seeds_view(seeds@), program_id@, a@, b),
            None => no_address_found(seeds_view(seeds@), program_id@),
        },
{
    let refs: Vec<&[u8]> = seeds.iter().map(|s| s.as_slice()).collect();
    Address::try_find_program_address(&refs, &Address::new_from_array(*program_id)).map(
        |(a, b)| (a.to_bytes(), b),
    )
}

/// The seed list `["vault", owner]`.
fn vault_seed_list(owner: &[u8; 32]) -> (r: Vec<Vec<u8>>)
    ensures
        seeds_view(r@) == vault_seeds(owner@),
{
    let mut seeds: Vec<Vec<u8>> = Vec::new();
    seeds.push(slice_to_vec(&VAULT_SEED));
    seeds.push(slice_to_vec(owner));
    assert(VAULT_SEED@ == vault_tag());
    assert(seeds_view(seeds@) =~= vault_seeds(owner@));
    seeds
}

/// The program address of `seeds`, or none where they give no valid one.
pub fn create_address(seeds: &Vec<Vec<u8>>, program_id: &[u8; 32]) -> (r: Option<[u8; 32]>)
    ensures
        match r {
            Some(a) => program_address_of(seeds_view(seeds@), program_id@) == Some(a@),
            None => program_address_of(seeds_view(seeds@), program_id@) is None,
        },
{
    create_program_address(seeds, program_id)
}

/// Finds the canonical program address of `seeds` and the salt that gives it.
pub fn find_address(seeds: &Vec<Vec<u8>>, program_id: &[u8; 32]) -> (r: Option<([u8; 32], u8)>)
    ensures
        match r {
            Some((a, b)) => is_found_address(seeds_view(seeds@), program_id@, a@, b),
            None => no_address_found(seeds_view(seeds@), program_id@),
        },
{
    try_find_program_address(seeds, program_id)
}

/// Finds the canonical vault address of `owner` and the salt that gives it.
pub fn find_vault_address(owner: &[u8; 32], program_id: &[u8; 32]) -> (r: Option<([u8; 32], u8)>)
    ensures
        match r {
            Some((a, b)) => is_found_address(vault_seeds(owner@), program_id@, a@, b),
            None => no_address_found(vault_seeds(owner@), program_id@),
        },
{
    let seeds = vault_seed_list(owner);
    find_address(&seeds, program_id)
}

/// Re-derives the vault address of `owner` under `bump` and compares it with `address`.
pub fn verify_vault_address(address: &[u8; 32], owner: &[u8; 32], bump: u8, program_id: &[u8; 32]) -> (r: bool)
    ensures
        r == (bump_address(vault_seeds(owner@), bump, program_id@) == Some(address@)),
{
    let mut seeds = vault_seed_list(owner);
    let salt: [u8; 1] = [bump];
    let salt_vec = slice_to_vec(&salt);
    assert(salt_vec@ =~= seq![bump]);
    let ghost base = seeds@;
    seeds.push(salt_vec);
    assert(seeds_view(seeds@) =~= seeds_view(base).push(seq![bump]));
    match create_address(&seeds, program_id) {
        Some(derived) => crate::bytes::bytes32_eq(&derived, address),
        None => false,
    }
}

} // verus!
