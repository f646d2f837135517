//! The two outside computations the engine leans on: the SHA-256 digest that
//! seeds order tags, and program-derived addresses for settlement records.
//! Each is deterministic in its arguments alone, so each result is named by
//! an abstract spec function; nothing else is assumed of the values.
use crate::keys::AccountKey;
use vstd::prelude::*;

verus! {

/// The SHA-256 digest of a byte string.
pub uninterp spec fn sha256_of(input: Seq<u8>) -> Seq<u8>;

/// Relies on solana_sdk::hash::hash: the SHA-256 digest of the input bytes,
/// 32 bytes long, a function of the input alone.
#[verifier::external_body]
pub fn sha256(input: &Vec<u8>) -> (r: Vec<u8>)
    ensures
        r@ == sha256_of(input@),
        r@.len() == 32,
{
    solana_sdk::hash::hash(input.as_slice()).to_bytes().to_vec()
}

/// The program-derived address for a seed list under a program id, or `None`
/// in the (practically unreachable) case that no bump seed works.
pub uninterp spec fn pda_of(seeds: Seq<Seq<u8>>, program_id: Seq<u8>) -> Option<Seq<u8>>;

/// Relies on solana_sdk::pubkey::Pubkey::try_find_program_address: the
/// derived address is a 32-byte key, a function of the seed list and the
/// program id alone; `None` comes back when no bump seed yields an address.
#[verifier::external_body]
pub fn derive_program_address(seeds: &Vec<Vec<u8>>, program_id: &Vec<u8>) -> (r: Option<Vec<u8>>)
    requires
        program_id@.len() == 32,
    ensures
        r is Some <==> pda_of(seeds.deep_view(), program_id@) is Some,
        r is Some ==> r.unwrap()@ == pda_of(seeds.deep_view(), program_id@).unwrap(),
        r is Some ==> r.unwrap()@.len() == 32,
{
    let mut seed_refs: Vec<&[u8]> = Vec::new();
    for s in seeds.iter() {
        seed_refs.push(s.as_slice());
    }
    let program = solana_sdk::pubkey::Pubkey::try_from(program_id.as_slice()).unwrap();
    match solana_sdk::pubkey::Pubkey::try_find_program_address(&seed_refs, &program) {
        Some((pk, _bump)) => Some(pk.to_bytes().to_vec()),
        None => None,
    }
}

/// The derived address for a settlement record, as a key: `None` when no
/// bump seed yields an address.
pub open spec fn spec_derived_key(seeds: Seq<Seq<u8>>, program_id: AccountKey) -> Option<
    AccountKey,
> {
    match pda_of(seeds, program_id.spec_bytes()) {
        Some(b) => Some(AccountKey::spec_of_bytes(b)),
        None => None,
    }
}

/// Derive the key for a settlement record from its seed list.
pub fn derive_record_key(seeds: &Vec<Vec<u8>>, program_id: &AccountKey) -> (r: Option<AccountKey>)
    ensures
        r == spec_derived_key(seeds.deep_view(), *program_id),
{
    let program_bytes = program_id.to_bytes();
    match derive_program_address(seeds, &program_bytes) {
        Some(b) => Some(AccountKey::from_bytes(b.as_slice())),
        None => None,
    }
}

} // verus!
