//! Order tags: the 16-byte deterministic identifier of an order, the first
//! half of `SHA-256(market_key ‖ user_key ‖ nonce_le)`.
use crate::hashing::{sha256, sha256_of};
use vstd::bytes::*;
use vstd::prelude::*;
use vstd::slice::*;

verus! {

/// A 16-byte order tag, stored as two little-endian 64-bit words; `t0` holds
/// bytes 0..8, `t1` bytes 8..16.
#[derive(Clone, Copy, Debug, PartialEq, Eq, Structural)]
pub struct OrderTag {
    pub t0: u64,
    pub t1: u64,
}

/// The byte string hashed to produce a tag: market key, then user key, then
/// the order nonce in little-endian form.
pub open spec fn tag_preimage(market: Seq<u8>, user: Seq<u8>, nonce: u64) -> Seq<u8> {
    market + user + spec_u64_to_le_bytes(nonce)
}

impl OrderTag {
    /// The canonical 16-byte form of the tag.
    pub open spec fn spec_bytes(self) -> Seq<u8> {
        spec_u64_to_le_bytes(self.t0) + spec_u64_to_le_bytes(self.t1)
    }

    /// The tag whose byte form is `b` (for 16-byte `b`).
    pub open spec fn spec_of_bytes(b: Seq<u8>) -> OrderTag {
        OrderTag {
            t0: spec_u64_from_le_bytes(b.subrange(0, 8)),
            t1: spec_u64_from_le_bytes(b.subrange(8, 16)),
        }
    }

    /// The tag of the order placed under `nonce` by `user_key_bytes` on the
    /// market `market_key_bytes`: the first 16 bytes of the SHA-256 digest of
    /// the tag preimage.
    pub open spec fn spec_generate(market: Seq<u8>, user: Seq<u8>, nonce: u64) -> OrderTag {
        OrderTag::spec_of_bytes(sha256_of(tag_preimage(market, user, nonce)).subrange(0, 16))
    }

    /// Hash the market key, the user key and the nonce down to a tag.
    pub fn generate(market_key_bytes: &[u8], user_key_bytes: &[u8], nonce: u64) -> (r: OrderTag)
        ensures
            r == OrderTag::spec_generate(market_key_bytes@, user_key_bytes@, nonce),
            r.spec_bytes() == sha256_of(
                tag_preimage(market_key_bytes@, user_key_bytes@, nonce),
            ).subrange(0, 16),
    {
        proof {
            lemma_auto_spec_u64_to_from_le_bytes();
        }
        let mut preimage = slice_to_vec(market_key_bytes);
        let mut user = slice_to_vec(user_key_bytes);
        let mut nonce_bytes = u64_to_le_bytes(nonce);
        preimage.append(&mut user);
        preimage.append(&mut nonce_bytes);
        let digest = sha256(&preimage);
        let t0 = u64_from_le_bytes(slice_subrange(digest.as_slice(), 0, 8));
        let t1 = u64_from_le_bytes(slice_subrange(digest.as_slice(), 8, 16));
        let r = OrderTag { t0, t1 };
        proof {
            let d = sha256_of(tag_preimage(market_key_bytes@, user_key_bytes@, nonce));
            assert(digest@ == d);
            assert(d.subrange(0, 16).subrange(0, 8) =~= d.subrange(0, 8));
            assert(d.subrange(0, 16).subrange(8, 16) =~= d.subrange(8, 16));
            assert(r.spec_bytes() =~= d.subrange(0, 16));
        }
        r
    }

    /// Read a tag back from its 16-byte form.
    pub fn from_bytes(b: &[u8]) -> (r: OrderTag)
        requires
            b@.len() == 16,
        ensures
            r == OrderTag::spec_of_bytes(b@),
            r.spec_bytes() == b@,
    {
        proof {
            lemma_auto_spec_u64_to_from_le_bytes();
        }
        let t0 = u64_from_le_bytes(slice_subrange(b, 0, 8));
        let t1 = u64_from_le_bytes(slice_subrange(b, 8, 16));
        let r = OrderTag { t0, t1 };
        proof {
            assert(r.spec_bytes() =~= b@);
        }
        r
    }

    /// The 16 bytes of the tag.
    pub fn bytes(&self) -> (r: Vec<u8>)
        ensures
            r@ == self.spec_bytes(),
            r@.len() == 16,
    {
        proof {
            lemma_auto_spec_u64_to_from_le_bytes();
        }
        let mut r = u64_to_le_bytes(self.t0);
        let mut r1 = u64_to_le_bytes(self.t1);
        r.append(&mut r1);
        r
    }
}

/// Parsing a tag's byte form yields the tag back.
pub proof fn lemma_tag_of_bytes_round_trip(t: OrderTag)
    ensures
        OrderTag::spec_of_bytes(t.spec_bytes()) == t,
{
    lemma_auto_spec_u64_to_from_le_bytes();
    assert(t.spec_bytes().subrange(0, 8) =~= spec_u64_to_le_bytes(t.t0));
    assert(t.spec_bytes().subrange(8, 16) =~= spec_u64_to_le_bytes(t.t1));
}

/// Distinct (market, user, nonce) triples of full-width keys feed distinct
/// byte strings to the hash; tag distinctness itself then rests on the
/// hash's collision resistance, which no contract here states.
pub proof fn lemma_tag_preimage_injective(
    m1: Seq<u8>,
    u1: Seq<u8>,
    n1: u64,
    m2: Seq<u8>,
    u2: Seq<u8>,
    n2: u64,
)
    requires
        m1.len() == 32,
        u1.len() == 32,
        m2.len() == 32,
        u2.len() == 32,
        tag_preimage(m1, u1, n1) == tag_preimage(m2, u2, n2),
    ensures
        m1 == m2,
        u1 == u2,
        n1 == n2,
{
    lemma_auto_spec_u64_to_from_le_bytes();
    let p1 = tag_preimage(m1, u1, n1);
    let p2 = tag_preimage(m2, u2, n2);
    assert(m1 =~= p1.subrange(0, 32));
    assert(u1 =~= p1.subrange(32, 64));
    assert(spec_u64_to_le_bytes(n1) =~= p1.subrange(64, 72));
    assert(m2 =~= p2.subrange(0, 32));
    assert(u2 =~= p2.subrange(32, 64));
    assert(spec_u64_to_le_bytes(n2) =~= p2.subrange(64, 72));
    assert(spec_u64_from_le_bytes(spec_u64_to_le_bytes(n1)) == n1);
    assert(spec_u64_from_le_bytes(spec_u64_to_le_bytes(n2)) == n2);
}

} // verus!
