//! Fill and Out events. The queue stores every event in a 40-byte slot; the
//! first byte is the tag (0 = fill, 1 = out), and each kind lays its fields
//! out little-endian behind it.
use crate::callback::CallbackInfo;
use crate::BondsError;
use vstd::bytes::*;
use vstd::prelude::*;
use vstd::slice::*;

verus! {

/// The serialized length of one event slot.
pub const EVENT_SLOT_LEN: usize = 40;

/// Two orders matched: the taker traded `base_size` tickets against
/// `quote_size` underlying tokens with the resting order `maker_order_id`.
#[derive(Clone, Copy, Debug, PartialEq, Eq, Structural)]
pub struct FillEvent {
    /// Side of the aggressing order (0 = bid, 1 = ask).
    pub taker_side: u8,
    /// Underlying tokens exchanged.
    pub quote_size: u64,
    /// Tickets exchanged.
    pub base_size: u64,
    /// Identifier of the resting order that was hit.
    pub maker_order_id: u128,
}

/// A resting order left the book (cancellation or removal) with
/// `base_size` tickets unfilled.
#[derive(Clone, Copy, Debug, PartialEq, Eq, Structural)]
pub struct OutEvent {
    /// Side of the removed order (0 = bid, 1 = ask).
    pub side: u8,
    /// Identifier of the removed order; its high 64 bits hold the price.
    pub order_id: u128,
    /// Tickets that were still resting.
    pub base_size: u64,
}

/// An event as the queue stores it.
#[derive(Clone, Copy, Debug, PartialEq, Eq, Structural)]
pub enum QueueEvent {
    Fill(FillEvent),
    Out(OutEvent),
}

/// Anything that can take a queue slot.
pub trait Event {
    spec fn spec_generic(&self) -> QueueEvent;

    fn to_generic(&self) -> (r: QueueEvent)
        ensures
            r == self.spec_generic(),
    ;
}

impl Event for FillEvent {
    open spec fn spec_generic(&self) -> QueueEvent {
        QueueEvent::Fill(*self)
    }

    fn to_generic(&self) -> (r: QueueEvent) {
        QueueEvent::Fill(*self)
    }
}

impl Event for OutEvent {
    open spec fn spec_generic(&self) -> QueueEvent {
        QueueEvent::Out(*self)
    }

    fn to_generic(&self) -> (r: QueueEvent) {
        QueueEvent::Out(*self)
    }
}

impl Event for QueueEvent {
    open spec fn spec_generic(&self) -> QueueEvent {
        *self
    }

    fn to_generic(&self) -> (r: QueueEvent) {
        *self
    }
}

/// The 40-byte form of an event.
pub open spec fn spec_ser_event(e: QueueEvent) -> Seq<u8> {
    match e {
        QueueEvent::Fill(f) => seq![0u8, f.taker_side] + Seq::new(6, |i: int| 0u8)
            + spec_u64_to_le_bytes(f.quote_size) + spec_u64_to_le_bytes(f.base_size)
            + spec_u128_to_le_bytes(f.maker_order_id),
        QueueEvent::Out(o) => seq![1u8, o.side] + Seq::new(6, |i: int| 0u8)
            + spec_u128_to_le_bytes(o.order_id) + spec_u64_to_le_bytes(o.base_size) + Seq::new(
            8,
            |i: int| 0u8,
        ),
    }
}

/// The event held by a 40-byte slot. A slot whose tag byte is not 1 reads
/// as a fill; `deserialize` refuses live slots with an unknown tag.
pub open spec fn spec_parse_event(b: Seq<u8>) -> QueueEvent {
    if b[0] == 1 {
        QueueEvent::Out(
            OutEvent {
                side: b[1],
                order_id: spec_u128_from_le_bytes(b.subrange(8, 24)),
                base_size: spec_u64_from_le_bytes(b.subrange(24, 32)),
            },
        )
    } else {
        QueueEvent::Fill(
            FillEvent {
                taker_side: b[1],
                quote_size: spec_u64_from_le_bytes(b.subrange(8, 16)),
                base_size: spec_u64_from_le_bytes(b.subrange(16, 24)),
                maker_order_id: spec_u128_from_le_bytes(b.subrange(24, 40)),
            },
        )
    }
}

/// Serialize an event into its 40-byte slot form.
pub fn ser_event(e: &QueueEvent) -> (r: Vec<u8>)
    ensures
        r@ == spec_ser_event(*e),
        r@.len() == EVENT_SLOT_LEN,
{
    proof {
        lemma_auto_spec_u64_to_from_le_bytes();
        lemma_auto_spec_u128_to_from_le_bytes();
    }
    let mut r: Vec<u8> = Vec::new();
    match e {
        QueueEvent::Fill(f) => {
            r.push(0u8);
            r.push(f.taker_side);
            push_zeros(&mut r, 6);
            let mut quote = u64_to_le_bytes(f.quote_size);
            let mut base = u64_to_le_bytes(f.base_size);
            let mut id = u128_to_le_bytes(f.maker_order_id);
            r.append(&mut quote);
            r.append(&mut base);
            r.append(&mut id);
            proof {
                assert(r@ =~= spec_ser_event(*e));
            }
        },
        QueueEvent::Out(o) => {
            r.push(1u8);
            r.push(o.side);
            push_zeros(&mut r, 6);
            let mut id = u128_to_le_bytes(o.order_id);
            let mut base = u64_to_le_bytes(o.base_size);
            r.append(&mut id);
            r.append(&mut base);
            push_zeros(&mut r, 8);
            proof {
                assert(r@ =~= spec_ser_event(*e));
            }
        },
    }
    r
}

/// Append `n` zero bytes.
pub fn push_zeros(r: &mut Vec<u8>, n: usize)
    ensures
        final(r)@ =~= old(r)@ + Seq::new(n as nat, |i: int| 0u8),
{
    let ghost prefix: Seq<u8> = r@;
    let mut i: usize = 0;
    while i < n
        invariant
            i <= n,
            r@ =~= prefix + Seq::new(i as nat, |j: int| 0u8),
        decreases n - i,
    {
        r.push(0u8);
        proof {
            assert(Seq::new((i + 1) as nat, |j: int| 0u8) =~= Seq::new(
                i as nat,
                |j: int| 0u8,
            ).push(0u8));
        }
        i += 1;
    }
}

/// Read an event back from a 40-byte slot.
pub fn parse_event(b: &[u8]) -> (r: QueueEvent)
    requires
        b@.len() == EVENT_SLOT_LEN,
    ensures
        r == spec_parse_event(b@),
{
    let tag = *slice_index_get(b, 0);
    if tag == 1 {
        let side = *slice_index_get(b, 1);
        let order_id = u128_from_le_bytes(slice_subrange(b, 8, 24));
        let base_size = u64_from_le_bytes(slice_subrange(b, 24, 32));
        QueueEvent::Out(OutEvent { side, order_id, base_size })
    } else {
        let taker_side = *slice_index_get(b, 1);
        let quote_size = u64_from_le_bytes(slice_subrange(b, 8, 16));
        let base_size = u64_from_le_bytes(slice_subrange(b, 16, 24));
        let maker_order_id = u128_from_le_bytes(slice_subrange(b, 24, 40));
        QueueEvent::Fill(FillEvent { taker_side, quote_size, base_size, maker_order_id })
    }
}

/// Parsing a serialized event yields the event back.
pub proof fn lemma_event_round_trip(e: QueueEvent)
    ensures
        spec_parse_event(spec_ser_event(e)) == e,
{
    lemma_auto_spec_u64_to_from_le_bytes();
    lemma_auto_spec_u128_to_from_le_bytes();
    let s = spec_ser_event(e);
    match e {
        QueueEvent::Fill(f) => {
            assert(s.subrange(8, 16) =~= spec_u64_to_le_bytes(f.quote_size));
            assert(s.subrange(16, 24) =~= spec_u64_to_le_bytes(f.base_size));
            assert(s.subrange(24, 40) =~= spec_u128_to_le_bytes(f.maker_order_id));
        },
        QueueEvent::Out(o) => {
            assert(s.subrange(8, 24) =~= spec_u128_to_le_bytes(o.order_id));
            assert(s.subrange(24, 32) =~= spec_u64_to_le_bytes(o.base_size));
        },
    }
}

/// A fill joined with the two orders' metadata.
#[derive(Clone, Copy, Debug, PartialEq, Eq, Structural)]
pub struct FillInfo {
    pub event: FillEvent,
    pub maker_info: CallbackInfo,
    pub taker_info: CallbackInfo,
}

/// An out joined with the removed order's metadata.
#[derive(Clone, Copy, Debug, PartialEq, Eq, Structural)]
pub struct OutInfo {
    pub event: OutEvent,
    pub info: CallbackInfo,
}

/// A fully materialized queue entry.
#[derive(Clone, Copy, Debug, PartialEq, Eq, Structural)]
pub enum OrderbookEvent {
    Fill(FillInfo),
    Out(OutInfo),
}

impl OrderbookEvent {
    /// The fill inside, or `InvalidEvent` for an out.
    pub fn unwrap_fill(self) -> (r: Result<FillInfo, BondsError>)
        ensures
            match self {
                OrderbookEvent::Fill(fill) => r == Ok::<FillInfo, BondsError>(fill),
                OrderbookEvent::Out(_) => r == Err::<FillInfo, BondsError>(
                    BondsError::InvalidEvent,
                ),
            },
    {
        match self {
            OrderbookEvent::Fill(fill) => Ok(fill),
            OrderbookEvent::Out(_) => Err(BondsError::InvalidEvent),
        }
    }

    /// The out inside, or `InvalidEvent` for a fill.
    pub fn unwrap_out(self) -> (r: Result<OutInfo, BondsError>)
        ensures
            match self {
                OrderbookEvent::Out(out) => r == Ok::<OutInfo, BondsError>(out),
                OrderbookEvent::Fill(_) => r == Err::<OutInfo, BondsError>(
                    BondsError::InvalidEvent,
                ),
            },
    {
        match self {
            OrderbookEvent::Out(out) => Ok(out),
            OrderbookEvent::Fill(_) => Err(BondsError::InvalidEvent),
        }
    }
}

/// Sort a fill's two parties into (lender, borrower): when the taker bid,
/// the taker lent; when the taker asked, the maker lent.
pub fn lender_borrower<T>(taker_side: u8, maker: T, taker: T) -> (r: (T, T))
    requires
        taker_side == 0 || taker_side == 1,
    ensures
        taker_side == 0 ==> r == (taker, maker),
        taker_side == 1 ==> r == (maker, taker),
{
    if taker_side == 0 {
        (taker, maker)
    } else {
        (maker, taker)
    }
}

} // verus!
