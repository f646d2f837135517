use bond_orderbook::hashing::{derive_program_address, sha256};
use bond_orderbook::keys::AccountKey;
use bond_orderbook::tag::OrderTag;

fn key(n: u64) -> AccountKey {
    AccountKey { w0: n, w1: n + 1, w2: n + 2, w3: n + 3 }
}

#[test]
fn sha256_matches_reference() {
    let input = vec![1u8, 2, 3, 4];
    let digest = sha256(&input);
    let expected = solana_sdk::hash::hash(&input).to_bytes().to_vec();
    assert_eq!(digest, expected);
    assert_eq!(digest.len(), 32);
}

#[test]
fn tag_is_truncated_hash_of_market_user_nonce() {
    let market = key(10).to_bytes();
    let user = key(99).to_bytes();
    let nonce: u64 = 7;
    let tag = OrderTag::generate(&market, &user, nonce);

    let mut preimage = market.clone();
    preimage.extend_from_slice(&user);
    preimage.extend_from_slice(&nonce.to_le_bytes());
    let digest = solana_sdk::hash::hash(&preimage).to_bytes();
    assert_eq!(tag.bytes(), digest[..16].to_vec());
}

#[test]
fn distinct_nonces_give_distinct_tags() {
    let market = key(1).to_bytes();
    let user = key(2).to_bytes();
    let a = OrderTag::generate(&market, &user, 0);
    let b = OrderTag::generate(&market, &user, 1);
    let c = OrderTag::generate(&market, &user, 2);
    assert_ne!(a, b);
    assert_ne!(b, c);
    assert_ne!(a, c);
}

#[test]
fn tag_bytes_round_trip() {
    let market = key(5).to_bytes();
    let user = key(6).to_bytes();
    let tag = OrderTag::generate(&market, &user, 3);
    let back = OrderTag::from_bytes(&tag.bytes());
    assert_eq!(tag, back);
}

#[test]
fn derived_address_matches_reference() {
    let program = key(42).to_bytes();
    let seeds = vec![vec![1u8, 2, 3], vec![4u8, 5]];
    let derived = derive_program_address(&seeds, &program);

    let program_pk = solana_sdk::pubkey::Pubkey::try_from(program.as_slice()).unwrap();
    let seed_refs: Vec<&[u8]> = seeds.iter().map(|s| s.as_slice()).collect();
    let expected =
        solana_sdk::pubkey::Pubkey::try_find_program_address(&seed_refs, &program_pk)
            .map(|(pk, _bump)| pk.to_bytes().to_vec());
    assert_eq!(derived, expected);
    assert!(derived.is_some());
}

#[test]
fn key_bytes_round_trip() {
    let k = key(123456);
    let b = k.to_bytes();
    assert_eq!(b.len(), 32);
    assert_eq!(AccountKey::from_bytes(&b), k);
}
