//! Account keys and little-endian field codecs.
//!
//! A key names an account: a market, an order owner, a token account, an
//! adapter. It is 32 bytes, held here as four little-endian 64-bit words so
//! that equality is structural; `spec_bytes` gives the canonical byte form.
use vstd::bytes::*;
use vstd::prelude::*;
use vstd::slice::*;

verus! {

/// A 32-byte account key, stored as four words; word `w0` holds bytes 0..8
/// (little-endian), `w1` bytes 8..16, and so on.
#[derive(Clone, Copy, Debug, PartialEq, Eq, Structural)]
pub struct AccountKey {
    pub w0: u64,
    pub w1: u64,
    pub w2: u64,
    pub w3: u64,
}

impl AccountKey {
    /// The canonical 32-byte form of the key.
    pub open spec fn spec_bytes(self) -> Seq<u8> {
        spec_u64_to_le_bytes(self.w0) + spec_u64_to_le_bytes(self.w1) + spec_u64_to_le_bytes(
            self.w2,
        ) + spec_u64_to_le_bytes(self.w3)
    }

    pub open spec fn spec_zero() -> AccountKey {
        AccountKey { w0: 0, w1: 0, w2: 0, w3: 0 }
    }

    /// The all-zero key, which marks "no account" (an absent adapter).
    pub fn zero() -> (r: AccountKey)
        ensures
            r == AccountKey::spec_zero(),
    {
        AccountKey { w0: 0, w1: 0, w2: 0, w3: 0 }
    }

    pub fn to_bytes(&self) -> (r: Vec<u8>)
        ensures
            r@ == self.spec_bytes(),
            r@.len() == 32,
    {
        proof {
            lemma_auto_spec_u64_to_from_le_bytes();
        }
        let mut r = u64_to_le_bytes(self.w0);
        let mut r1 = u64_to_le_bytes(self.w1);
        let mut r2 = u64_to_le_bytes(self.w2);
        let mut r3 = u64_to_le_bytes(self.w3);
        r.append(&mut r1);
        r.append(&mut r2);
        r.append(&mut r3);
        r
    }

    pub fn from_bytes(b: &[u8]) -> (r: AccountKey)
        requires
            b@.len() == 32,
        ensures
            r.spec_bytes() == b@,
            r == AccountKey::spec_of_bytes(b@),
    {
        proof {
            lemma_auto_spec_u64_to_from_le_bytes();
        }
        let w0 = u64_from_le_bytes(slice_subrange(b, 0, 8));
        let w1 = u64_from_le_bytes(slice_subrange(b, 8, 16));
        let w2 = u64_from_le_bytes(slice_subrange(b, 16, 24));
        let w3 = u64_from_le_bytes(slice_subrange(b, 24, 32));
        let r = AccountKey { w0, w1, w2, w3 };
        proof {
            assert(r.spec_bytes() =~= b@);
        }
        r
    }

    /// The key whose byte form is `b` (for 32-byte `b`).
    pub open spec fn spec_of_bytes(b: Seq<u8>) -> AccountKey {
        AccountKey {
            w0: spec_u64_from_le_bytes(b.subrange(0, 8)),
            w1: spec_u64_from_le_bytes(b.subrange(8, 16)),
            w2: spec_u64_from_le_bytes(b.subrange(16, 24)),
            w3: spec_u64_from_le_bytes(b.subrange(24, 32)),
        }
    }
}

/// Two keys with the same byte form are the same key.
pub proof fn lemma_key_bytes_injective(a: AccountKey, b: AccountKey)
    requires
        a.spec_bytes() == b.spec_bytes(),
    ensures
        a == b,
{
    lemma_auto_spec_u64_to_from_le_bytes();
    assert(a.spec_bytes().subrange(0, 8) =~= spec_u64_to_le_bytes(a.w0));
    assert(a.spec_bytes().subrange(8, 16) =~= spec_u64_to_le_bytes(a.w1));
    assert(a.spec_bytes().subrange(16, 24) =~= spec_u64_to_le_bytes(a.w2));
    assert(a.spec_bytes().subrange(24, 32) =~= spec_u64_to_le_bytes(a.w3));
    assert(b.spec_bytes().subrange(0, 8) =~= spec_u64_to_le_bytes(b.w0));
    assert(b.spec_bytes().subrange(8, 16) =~= spec_u64_to_le_bytes(b.w1));
    assert(b.spec_bytes().subrange(16, 24) =~= spec_u64_to_le_bytes(b.w2));
    assert(b.spec_bytes().subrange(24, 32) =~= spec_u64_to_le_bytes(b.w3));
}

/// A key's byte form is 32 bytes long.
pub proof fn lemma_key_bytes_len(a: AccountKey)
    ensures
        a.spec_bytes().len() == 32,
{
    lemma_auto_spec_u64_to_from_le_bytes();
}

/// Parsing a key's byte form yields the key back.
pub proof fn lemma_key_of_bytes_round_trip(k: AccountKey)
    ensures
        AccountKey::spec_of_bytes(k.spec_bytes()) == k,
{
    lemma_auto_spec_u64_to_from_le_bytes();
    assert(k.spec_bytes().subrange(0, 8) =~= spec_u64_to_le_bytes(k.w0));
    assert(k.spec_bytes().subrange(8, 16) =~= spec_u64_to_le_bytes(k.w1));
    assert(k.spec_bytes().subrange(16, 24) =~= spec_u64_to_le_bytes(k.w2));
    assert(k.spec_bytes().subrange(24, 32) =~= spec_u64_to_le_bytes(k.w3));
}

/// Little-endian form of a signed 64-bit value (two's complement).
pub open spec fn spec_i64_to_le_bytes(x: i64) -> Seq<u8> {
    spec_u64_to_le_bytes(x as u64)
}

pub fn i64_to_le_bytes(x: i64) -> (r: Vec<u8>)
    ensures
        r@ == spec_i64_to_le_bytes(x),
        r@.len() == 8,
{
    proof {
        lemma_auto_spec_u64_to_from_le_bytes();
    }
    u64_to_le_bytes(x as u64)
}

pub fn i64_from_le_bytes(b: &[u8]) -> (r: i64)
    requires
        b@.len() == 8,
    ensures
        spec_i64_to_le_bytes(r) == b@,
        r == spec_u64_from_le_bytes(b@) as i64,
{
    proof {
        lemma_auto_spec_u64_to_from_le_bytes();
    }
    let w = u64_from_le_bytes(b);
    let r = w as i64;
    proof {
        assert(r as u64 == w) by (bit_vector)
            requires
                r == w as i64,
        ;
    }
    r
}

/// Round trip: reading back the written bytes of a signed value yields it.
pub proof fn lemma_i64_le_bytes_round_trip(x: i64)
    ensures
        spec_u64_from_le_bytes(spec_i64_to_le_bytes(x)) as i64 == x,
{
    lemma_auto_spec_u64_to_from_le_bytes();
    assert((x as u64) as i64 == x) by (bit_vector);
}

} // verus!
