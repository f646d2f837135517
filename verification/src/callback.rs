//! Per-order metadata. A `CallbackInfo` record travels with an order: it is
//! stored in the book beside the resting order and copied into the event
//! queue at fill or out time. Its byte form is 167 bytes, little-endian,
//! with a 14-byte reserved suffix.
use crate::keys::{i64_from_le_bytes, i64_to_le_bytes, spec_i64_to_le_bytes, AccountKey};
use crate::tag::OrderTag;
use vstd::bytes::*;
use vstd::prelude::*;
use vstd::slice::*;

verus! {

/// Bitset of order behaviors, stored in one byte.
pub type CallbackFlags = u8;

/// Tickets bought by this order are staked at once into a split ticket.
pub const AUTO_STAKE: CallbackFlags = 1;

/// The fill creates new debt: an obligation must start accruing.
pub const NEW_DEBT: CallbackFlags = 2;

/// The order was placed by a margin user; settlement goes to its ledger.
pub const MARGIN: CallbackFlags = 4;

pub open spec fn spec_has_flag(flags: CallbackFlags, f: CallbackFlags) -> bool {
    flags & f != 0
}

/// Whether flag `f` is set in `flags`.
pub fn has_flag(flags: CallbackFlags, f: CallbackFlags) -> (r: bool)
    ensures
        r == spec_has_flag(flags, f),
{
    flags & f != 0
}

/// The serialized length of a `CallbackInfo`.
pub const CALLBACK_INFO_LEN: usize = 167;

/// Metadata carried by every order.
#[derive(Clone, Copy, Debug, PartialEq, Eq, Structural)]
pub struct CallbackInfo {
    /// Deterministic identifier of the order; seeds settlement records.
    pub order_tag: OrderTag,
    /// The authority that placed the order and may cancel it.
    pub owner: AccountKey,
    /// Destination of fill-derived assets: a margin user, a split-ticket
    /// owner slot, or a token account.
    pub fill_account: AccountKey,
    /// Destination on cancellation or expiry.
    pub out_account: AccountKey,
    /// Optional secondary event sink; the zero key means none.
    pub adapter_account_key: AccountKey,
    /// Unix timestamp at which the order entered the book.
    pub order_submitted: i64,
    /// Order behavior bits.
    pub flags: CallbackFlags,
}

impl CallbackInfo {
    /// Assemble the metadata for a new order; its tag is derived from the
    /// market key, the fill account and the market's order nonce.
    pub fn new(
        bond_manager_key: AccountKey,
        owner: AccountKey,
        fill_account: AccountKey,
        out_account: AccountKey,
        adapter: AccountKey,
        order_submitted: i64,
        flags: CallbackFlags,
        nonce: u64,
    ) -> (r: CallbackInfo)
        ensures
            r == (CallbackInfo {
                order_tag: OrderTag::spec_generate(
                    bond_manager_key.spec_bytes(),
                    fill_account.spec_bytes(),
                    nonce,
                ),
                owner,
                fill_account,
                out_account,
                adapter_account_key: adapter,
                order_submitted,
                flags,
            }),
    {
        let market_bytes = bond_manager_key.to_bytes();
        let fill_bytes = fill_account.to_bytes();
        let order_tag = OrderTag::generate(market_bytes.as_slice(), fill_bytes.as_slice(), nonce);
        CallbackInfo {
            order_tag,
            owner,
            fill_account,
            out_account,
            adapter_account_key: adapter,
            order_submitted,
            flags,
        }
    }

    /// The adapter queue this order subscribes to, if any.
    pub fn adapter(&self) -> (r: Option<AccountKey>)
        ensures
            r == self.spec_adapter(),
    {
        let zero = AccountKey::zero();
        if self.adapter_account_key == zero {
            None
        } else {
            Some(self.adapter_account_key)
        }
    }

    pub open spec fn spec_adapter(self) -> Option<AccountKey> {
        if self.adapter_account_key == AccountKey::spec_zero() {
            None
        } else {
            Some(self.adapter_account_key)
        }
    }

    /// The unix timestamp at which the order entered the book.
    pub fn order_submitted_timestamp(&self) -> (r: i64)
        ensures
            r == self.order_submitted,
    {
        self.order_submitted
    }

    /// The identity under which the matcher groups this order's callbacks.
    pub fn as_callback_id(&self) -> (r: AccountKey)
        ensures
            r == self.owner,
    {
        self.owner
    }

    /// The 167-byte form: tag, owner, fill, out, adapter, timestamp, flags,
    /// then 14 reserved zero bytes.
    pub open spec fn spec_ser(self) -> Seq<u8> {
        self.order_tag.spec_bytes() + self.owner.spec_bytes() + self.fill_account.spec_bytes()
            + self.out_account.spec_bytes() + self.adapter_account_key.spec_bytes()
            + spec_i64_to_le_bytes(self.order_submitted) + seq![self.flags] + Seq::new(
            14,
            |i: int| 0u8,
        )
    }

    /// The record whose byte form is `b` (for 167-byte `b`); the reserved
    /// suffix carries no information.
    pub open spec fn spec_parse(b: Seq<u8>) -> CallbackInfo {
        CallbackInfo {
            order_tag: OrderTag::spec_of_bytes(b.subrange(0, 16)),
            owner: AccountKey::spec_of_bytes(b.subrange(16, 48)),
            fill_account: AccountKey::spec_of_bytes(b.subrange(48, 80)),
            out_account: AccountKey::spec_of_bytes(b.subrange(80, 112)),
            adapter_account_key: AccountKey::spec_of_bytes(b.subrange(112, 144)),
            order_submitted: spec_u64_from_le_bytes(b.subrange(144, 152)) as i64,
            flags: b[152],
        }
    }

    /// Serialize into the 167-byte form.
    pub fn to_bytes(&self) -> (r: Vec<u8>)
        ensures
            r@ == self.spec_ser(),
            r@.len() == CALLBACK_INFO_LEN,
    {
        proof {
            lemma_auto_spec_u64_to_from_le_bytes();
        }
        let mut r = self.order_tag.bytes();
        let mut owner = self.owner.to_bytes();
        let mut fill = self.fill_account.to_bytes();
        let mut out = self.out_account.to_bytes();
        let mut adapter = self.adapter_account_key.to_bytes();
        let mut ts = i64_to_le_bytes(self.order_submitted);
        r.append(&mut owner);
        r.append(&mut fill);
        r.append(&mut out);
        r.append(&mut adapter);
        r.append(&mut ts);
        r.push(self.flags);
        let ghost prefix: Seq<u8> = r@;
        let mut i: usize = 0;
        while i < 14
            invariant
                i <= 14,
                r@ =~= prefix + Seq::new(i as nat, |j: int| 0u8),
            decreases 14 - i,
        {
            r.push(0u8);
            proof {
                assert(Seq::new((i + 1) as nat, |j: int| 0u8) =~= Seq::new(
                    i as nat,
                    |j: int| 0u8,
                ).push(0u8));
            }
            i += 1;
        }
        proof {
            assert(r@ =~= self.spec_ser());
        }
        r
    }

    /// Read a record back from its 167-byte form.
    pub fn from_bytes(b: &[u8]) -> (r: CallbackInfo)
        requires
            b@.len() == CALLBACK_INFO_LEN,
        ensures
            r == CallbackInfo::spec_parse(b@),
    {
        let order_tag = OrderTag::from_bytes(slice_subrange(b, 0, 16));
        let owner = AccountKey::from_bytes(slice_subrange(b, 16, 48));
        let fill_account = AccountKey::from_bytes(slice_subrange(b, 48, 80));
        let out_account = AccountKey::from_bytes(slice_subrange(b, 80, 112));
        let adapter_account_key = AccountKey::from_bytes(slice_subrange(b, 112, 144));
        let order_submitted = i64_from_le_bytes(slice_subrange(b, 144, 152));
        let flags = *slice_index_get(b, 152);
        CallbackInfo {
            order_tag,
            owner,
            fill_account,
            out_account,
            adapter_account_key,
            order_submitted,
            flags,
        }
    }
}

/// Parsing a serialized record yields the record back: the byte form is
/// faithful.
pub proof fn lemma_callback_info_round_trip(ci: CallbackInfo)
    ensures
        CallbackInfo::spec_parse(ci.spec_ser()) == ci,
{
    lemma_auto_spec_u64_to_from_le_bytes();
    crate::keys::lemma_key_bytes_len(ci.owner);
    let s = ci.spec_ser();
    assert(s.subrange(0, 16) =~= ci.order_tag.spec_bytes());
    assert(s.subrange(16, 48) =~= ci.owner.spec_bytes());
    assert(s.subrange(48, 80) =~= ci.fill_account.spec_bytes());
    assert(s.subrange(80, 112) =~= ci.out_account.spec_bytes());
    assert(s.subrange(112, 144) =~= ci.adapter_account_key.spec_bytes());
    assert(s.subrange(144, 152) =~= spec_i64_to_le_bytes(ci.order_submitted));
    assert(s[152] == ci.flags);
    crate::tag::lemma_tag_of_bytes_round_trip(ci.order_tag);
    crate::keys::lemma_key_of_bytes_round_trip(ci.owner);
    crate::keys::lemma_key_of_bytes_round_trip(ci.fill_account);
    crate::keys::lemma_key_of_bytes_round_trip(ci.out_account);
    crate::keys::lemma_key_of_bytes_round_trip(ci.adapter_account_key);
    crate::keys::lemma_i64_le_bytes_round_trip(ci.order_submitted);
}

} // verus!
