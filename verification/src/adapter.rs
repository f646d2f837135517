//! Adapter queues: user-owned secondary event sinks. Registration sizes an
//! independently owned ring and stamps it with its metadata; delivery into
//! it is best-effort and never fails settlement.
use crate::keys::AccountKey;
use crate::queue::{EventQueue, EventQueueHeader, EVENT_QUEUE_HEADER_LEN, QUEUE_SLOT_LEN};
use vstd::prelude::*;
use vstd::slice::*;

verus! {

/// Serialized length of the adapter metadata record.
pub const EVENT_ADAPTER_METADATA_LEN: usize = 96;

/// Who owns an adapter ring, and for which market and user it listens.
#[derive(Clone, Copy, Debug, PartialEq, Eq, Structural)]
pub struct EventAdapterMetadata {
    /// Signing authority over this adapter.
    pub owner: AccountKey,
    /// The market this adapter belongs to.
    pub manager: AccountKey,
    /// The margin user this adapter is registered for.
    pub orderbook_user: AccountKey,
}

impl EventAdapterMetadata {
    /// The 96-byte form: owner, manager, user.
    pub open spec fn spec_ser(self) -> Seq<u8> {
        self.owner.spec_bytes() + self.manager.spec_bytes() + self.orderbook_user.spec_bytes()
    }

    pub open spec fn spec_parse(b: Seq<u8>) -> EventAdapterMetadata {
        EventAdapterMetadata {
            owner: AccountKey::spec_of_bytes(b.subrange(0, 32)),
            manager: AccountKey::spec_of_bytes(b.subrange(32, 64)),
            orderbook_user: AccountKey::spec_of_bytes(b.subrange(64, 96)),
        }
    }

    pub fn to_bytes(&self) -> (r: Vec<u8>)
        ensures
            r@ == self.spec_ser(),
            r@.len() == EVENT_ADAPTER_METADATA_LEN,
    {
        let mut r = self.owner.to_bytes();
        let mut manager = self.manager.to_bytes();
        let mut user = self.orderbook_user.to_bytes();
        r.append(&mut manager);
        r.append(&mut user);
        r
    }

    pub fn from_bytes(b: &[u8]) -> (r: EventAdapterMetadata)
        requires
            b@.len() == EVENT_ADAPTER_METADATA_LEN,
        ensures
            r == EventAdapterMetadata::spec_parse(b@),
    {
        EventAdapterMetadata {
            owner: AccountKey::from_bytes(slice_subrange(b, 0, 32)),
            manager: AccountKey::from_bytes(slice_subrange(b, 32, 64)),
            orderbook_user: AccountKey::from_bytes(slice_subrange(b, 64, 96)),
        }
    }

    /// Byte length of an adapter account sized for `num_events` entries:
    /// the ring, this record, the ring header, and the two discriminators.
    pub fn space(num_events: u32) -> (r: usize)
        requires
            (num_events as int) * (QUEUE_SLOT_LEN as int) + EVENT_ADAPTER_METADATA_LEN
                + EVENT_QUEUE_HEADER_LEN + 16 <= usize::MAX,
        ensures
            r == (num_events as int) * (QUEUE_SLOT_LEN as int) + EVENT_ADAPTER_METADATA_LEN
                + EVENT_QUEUE_HEADER_LEN + 16,
    {
        num_events as usize * QUEUE_SLOT_LEN + EVENT_ADAPTER_METADATA_LEN
            + EVENT_QUEUE_HEADER_LEN + 16
    }
}

/// Parsing serialized adapter metadata yields it back.
pub proof fn lemma_adapter_metadata_round_trip(m: EventAdapterMetadata)
    ensures
        EventAdapterMetadata::spec_parse(m.spec_ser()) == m,
{
    crate::keys::lemma_key_bytes_len(m.owner);
    crate::keys::lemma_key_bytes_len(m.manager);
    crate::keys::lemma_key_bytes_len(m.orderbook_user);
    let s = m.spec_ser();
    assert(s.subrange(0, 32) =~= m.owner.spec_bytes());
    assert(s.subrange(32, 64) =~= m.manager.spec_bytes());
    assert(s.subrange(64, 96) =~= m.orderbook_user.spec_bytes());
    crate::keys::lemma_key_of_bytes_round_trip(m.owner);
    crate::keys::lemma_key_of_bytes_round_trip(m.manager);
    crate::keys::lemma_key_of_bytes_round_trip(m.orderbook_user);
}

/// Deliver one consume-time notice into a user-owned adapter ring,
/// best-effort: a full ring swallows the event and reports false; nothing
/// here ever fails settlement.
pub fn deliver_notice(
    adapter_queue: &mut EventQueue,
    notice: &crate::consume::AdapterNotice,
) -> (delivered: bool)
    requires
        old(adapter_queue).wf(),
    ensures
        final(adapter_queue).wf(),
        old(adapter_queue).header.count == old(adapter_queue).capacity ==> !delivered && *final(adapter_queue) == *old(adapter_queue),
        old(adapter_queue).header.count < old(adapter_queue).capacity ==> delivered && final(adapter_queue).entries() =~= old(adapter_queue).entries().push(
            old(adapter_queue).spec_pushed_entry(
                notice.event,
                Some(notice.maker),
                match notice.taker {
                    Some(t) => Some(t),
                    None => None,
                },
            ),
        ),
{
    let outcome = match &notice.taker {
        Some(t) => adapter_queue.push_event(&notice.event, Some(&notice.maker), Some(t)),
        None => adapter_queue.push_event(&notice.event, Some(&notice.maker), None),
    };
    outcome.is_ok()
}

/// What a registration asks for.
#[derive(Clone, Copy, Debug, PartialEq, Eq, Structural)]
pub struct RegisterAdapterParams {
    /// Total capacity of the adapter; more entries cost more rent.
    pub num_events: u32,
}

/// Register an adapter: stamp the metadata with its owner and market and
/// hand back the empty ring sized to the request.
pub fn handler(
    params: RegisterAdapterParams,
    owner: AccountKey,
    bond_manager: AccountKey,
    adapter_key: AccountKey,
) -> (r: (EventAdapterMetadata, EventQueue))
    requires
        (params.num_events as int) * (QUEUE_SLOT_LEN as int) + 24 <= usize::MAX,
    ensures
        r.0 == (EventAdapterMetadata {
            owner,
            manager: bond_manager,
            orderbook_user: AccountKey::spec_zero(),
        }),
        r.1.wf(),
        r.1.key == adapter_key,
        r.1.capacity == params.num_events,
        r.1.is_adapter,
        r.1.header == (EventQueueHeader { head: 0, count: 0 }),
        r.1.entries() =~= Seq::<crate::queue::QueueEntry>::empty(),
{
    let metadata = EventAdapterMetadata {
        owner,
        manager: bond_manager,
        orderbook_user: AccountKey::zero(),
    };
    let queue = EventQueue::new(adapter_key, params.num_events as usize, true);
    (metadata, queue)
}

} // verus!
