//! The event queue: a bounded ring of Fill/Out events with a pair of
//! callback-info slots per event. The matcher writes events at the tail;
//! the crank drains them from the head. Pushes beyond capacity are refused,
//! never overwritten.
use crate::callback::{CallbackInfo, CALLBACK_INFO_LEN};
use crate::events::{Event, FillInfo, OrderbookEvent, OutInfo, QueueEvent};
use crate::events::EVENT_SLOT_LEN;
use crate::keys::AccountKey;
use crate::tag::OrderTag;
use crate::BondsError;
use vstd::arithmetic::div_mod::{
    lemma_add_mod_noop, lemma_fundamental_div_mod_converse, lemma_mod_bound, lemma_small_mod,
};
use vstd::pervasive::VecAdditionalExecFns;
use vstd::prelude::*;

verus! {

/// Serialized length of the queue header.
pub const EVENT_QUEUE_HEADER_LEN: usize = 16;

/// Serialized length of one queue slot: the event plus two callback
/// records.
pub const QUEUE_SLOT_LEN: usize = EVENT_SLOT_LEN + 2 * CALLBACK_INFO_LEN;

/// Byte length of an event queue buffer with the given capacity.
pub fn event_queue_len(event_capacity: usize) -> (r: usize)
    requires
        event_capacity * QUEUE_SLOT_LEN + EVENT_QUEUE_HEADER_LEN + 8 <= usize::MAX,
    ensures
        r == event_capacity * QUEUE_SLOT_LEN + EVENT_QUEUE_HEADER_LEN + 8,
{
    event_capacity * QUEUE_SLOT_LEN + EVENT_QUEUE_HEADER_LEN + 8
}

/// The ring positions: `head` is the next entry to drain, `count` how many
/// entries are live.
#[derive(Clone, Copy, Debug, PartialEq, Eq, Structural)]
pub struct EventQueueHeader {
    pub head: u64,
    pub count: u64,
}

/// One live queue entry: the event and the two callback slots beside it
/// (the second is meaningful for fills only).
#[derive(Clone, Copy, Debug, PartialEq, Eq, Structural)]
pub struct QueueEntry {
    pub event: QueueEvent,
    pub maker: CallbackInfo,
    pub taker: CallbackInfo,
}

/// An entry joined into the record the consumer sees.
pub open spec fn spec_materialize(e: QueueEntry) -> OrderbookEvent {
    match e.event {
        QueueEvent::Fill(f) => OrderbookEvent::Fill(
            FillInfo { event: f, maker_info: e.maker, taker_info: e.taker },
        ),
        QueueEvent::Out(o) => OrderbookEvent::Out(OutInfo { event: o, info: e.maker }),
    }
}

pub open spec fn spec_min_u64(a: u64, b: u64) -> u64 {
    if a <= b {
        a
    } else {
        b
    }
}

/// The event queue of one market (or of one adapter, behind its metadata).
#[derive(Debug)]
pub struct EventQueue {
    /// Key of the account holding the queue.
    pub key: AccountKey,
    /// Number of slots.
    pub capacity: usize,
    /// Ring positions.
    pub header: EventQueueHeader,
    /// The event slots; dead slots hold stale values.
    pub events: Vec<QueueEvent>,
    /// Two callback slots per event slot.
    pub callbacks: Vec<CallbackInfo>,
    /// Whether this ring sits behind adapter metadata.
    pub is_adapter: bool,
}

impl EventQueue {
    /// Well-formedness: slot vectors sized to the capacity, the ring
    /// positions in range, and the buffer length representable.
    pub open spec fn wf(self) -> bool {
        &&& self.events.len() == self.capacity
        &&& self.callbacks.len() == 2 * self.capacity
        &&& self.header.count <= self.capacity
        &&& (self.header.head < self.capacity || (self.capacity == 0 && self.header.head == 0))
        &&& self.capacity * (QUEUE_SLOT_LEN as int) + 24 <= usize::MAX
    }

    /// Slot index of the `i`-th live entry.
    pub open spec fn entry_index(self, i: int) -> int {
        (self.header.head + i) % (self.capacity as int)
    }

    pub open spec fn spec_entry(self, i: int) -> QueueEntry {
        let idx = self.entry_index(i);
        QueueEntry {
            event: self.events@[idx],
            maker: self.callbacks@[2 * idx],
            taker: self.callbacks@[2 * idx + 1],
        }
    }

    /// The live entries in drain order.
    pub open spec fn entries(self) -> Seq<QueueEntry> {
        Seq::new(self.header.count as nat, |i: int| self.spec_entry(i))
    }

    /// An empty queue with the given capacity.
    pub fn new(key: AccountKey, capacity: usize, is_adapter: bool) -> (r: EventQueue)
        requires
            capacity * QUEUE_SLOT_LEN + 24 <= usize::MAX,
        ensures
            r.wf(),
            r.key == key,
            r.capacity == capacity,
            r.is_adapter == is_adapter,
            r.header == (EventQueueHeader { head: 0, count: 0 }),
            r.entries() =~= Seq::<QueueEntry>::empty(),
    {
        let blank_event = QueueEvent::Fill(
            crate::events::FillEvent { taker_side: 0, quote_size: 0, base_size: 0, maker_order_id: 0 },
        );
        let blank_info = CallbackInfo {
            order_tag: OrderTag { t0: 0, t1: 0 },
            owner: AccountKey::zero(),
            fill_account: AccountKey::zero(),
            out_account: AccountKey::zero(),
            adapter_account_key: AccountKey::zero(),
            order_submitted: 0,
            flags: 0,
        };
        let mut events: Vec<QueueEvent> = Vec::new();
        let mut i: usize = 0;
        while i < capacity
            invariant
                i <= capacity,
                events.len() == i,
            decreases capacity - i,
        {
            events.push(blank_event);
            i += 1;
        }
        let mut callbacks: Vec<CallbackInfo> = Vec::new();
        proof {
            assert(2 * (capacity as int) <= (capacity as int) * 374) by (nonlinear_arith);
        }
        let mut j: usize = 0;
        while j < 2 * capacity
            invariant
                j <= 2 * capacity,
                callbacks.len() == j,
                2 * (capacity as int) <= usize::MAX as int,
            decreases 2 * capacity - j,
        {
            callbacks.push(blank_info);
            j += 1;
        }
        EventQueue {
            key,
            capacity,
            header: EventQueueHeader { head: 0, count: 0 },
            events,
            callbacks,
            is_adapter,
        }
    }

    /// The callback slots after a push at slot `idx` wrote the provided
    /// records.
    pub open spec fn spec_callbacks_after_push(
        s: Seq<CallbackInfo>,
        idx: int,
        maker: Option<CallbackInfo>,
        taker: Option<CallbackInfo>,
    ) -> Seq<CallbackInfo> {
        let s1 = match maker {
            Some(c) => s.update(2 * idx, c),
            None => s,
        };
        match taker {
            Some(c) => s1.update(2 * idx + 1, c),
            None => s1,
        }
    }

    /// The entry a push appends: the event, and each provided callback or
    /// else the stale slot content.
    pub open spec fn spec_pushed_entry(
        self,
        e: QueueEvent,
        maker: Option<CallbackInfo>,
        taker: Option<CallbackInfo>,
    ) -> QueueEntry {
        let idx = (self.header.head + self.header.count) % (self.capacity as int);
        QueueEntry {
            event: e,
            maker: match maker {
                Some(c) => c,
                None => self.callbacks@[2 * idx],
            },
            taker: match taker {
                Some(c) => c,
                None => self.callbacks@[2 * idx + 1],
            },
        }
    }

    /// Push an event to the back of the queue, writing the provided
    /// callback records beside it. A full queue refuses the push.
    pub fn push_event<E: Event>(
        &mut self,
        event: &E,
        maker_callback_info: Option<&CallbackInfo>,
        taker_callback_info: Option<&CallbackInfo>,
    ) -> (r: Result<(), BondsError>)
        requires
            old(self).wf(),
        ensures
            old(self).header.count == old(self).capacity ==> r == Err::<(), BondsError>(
                BondsError::EventQueueFull,
            ) && *final(self) == *old(self),
            old(self).header.count < old(self).capacity ==> ({
                let idx = (old(self).header.head + old(self).header.count) % (
                old(self).capacity as int);
                &&& r == Ok::<(), BondsError>(())
                &&& final(self).wf()
                &&& final(self).key == old(self).key
                &&& final(self).capacity == old(self).capacity
                &&& final(self).is_adapter == old(self).is_adapter
                &&& final(self).header.head == old(self).header.head
                &&& final(self).header.count == old(self).header.count + 1
                &&& final(self).events@ == old(self).events@.update(idx, event.spec_generic())
                &&& final(self).callbacks@ == EventQueue::spec_callbacks_after_push(
                    old(self).callbacks@,
                    idx,
                    spec_opt_copy(maker_callback_info),
                    spec_opt_copy(taker_callback_info),
                )
                &&& final(self).entries() =~= old(self).entries().push(
                    old(self).spec_pushed_entry(
                        event.spec_generic(),
                        spec_opt_copy(maker_callback_info),
                        spec_opt_copy(taker_callback_info),
                    ),
                )
            }),
    {
        if self.header.count == self.capacity as u64 {
            return Err(BondsError::EventQueueFull);
        }
        let generic = event.to_generic();
        let idx64 = (self.header.head + self.header.count) % (self.capacity as u64);
        proof {
            lemma_mod_bound(
                (self.header.head + self.header.count) as int,
                self.capacity as int,
            );
        }
        let idx = idx64 as usize;
        self.events.set(idx, generic);
        self.header.count = self.header.count + 1;
        if let Some(c) = maker_callback_info {
            self.callbacks.set(2 * idx, *c);
        }
        if let Some(c) = taker_callback_info {
            self.callbacks.set(2 * idx + 1, *c);
        }
        proof {
            let q0 = *old(self);
            let cap = q0.capacity as int;
            let idx_i = (q0.header.head + q0.header.count) % cap;
            assert forall|i: int| 0 <= i < q0.header.count implies q0.entry_index(i)
                != idx_i by {
                lemma_ring_distinct(q0.header.head as int, cap, i, q0.header.count as int);
            }
            assert forall|i: int| 0 <= i < q0.header.count implies self.spec_entry(i)
                == q0.spec_entry(i) by {
                lemma_mod_bound(q0.header.head + i, cap);
            }
            lemma_mod_bound(q0.header.head + q0.header.count, cap);
            assert(self.entries() =~= q0.entries().push(
                q0.spec_pushed_entry(
                    event.spec_generic(),
                    spec_opt_copy(maker_callback_info),
                    spec_opt_copy(taker_callback_info),
                ),
            ));
        }
        Ok(())
    }

    /// Drop up to `num_events` entries from the front of the queue: the
    /// head advances modulo the capacity and the live window shrinks.
    pub fn pop_events(&mut self, num_events: u32) -> (r: Result<(), BondsError>)
        requires
            old(self).wf(),
        ensures
            r == Ok::<(), BondsError>(()),
            final(self).wf(),
            final(self).key == old(self).key,
            final(self).capacity == old(self).capacity,
            final(self).is_adapter == old(self).is_adapter,
            final(self).events@ == old(self).events@,
            final(self).callbacks@ == old(self).callbacks@,
            final(self).header.count == old(self).header.count - spec_min_u64(
                old(self).header.count,
                num_events as u64,
            ),
            old(self).capacity > 0 ==> final(self).header.head == (old(self).header.head
                + spec_min_u64(old(self).header.count, num_events as u64)) % (
            old(self).capacity as int),
            old(self).capacity == 0 ==> final(self).header.head == old(self).header.head,
            final(self).entries() =~= old(self).entries().skip(
                spec_min_u64(old(self).header.count, num_events as u64) as int,
            ),
    {
        let k = if self.header.count <= num_events as u64 {
            self.header.count
        } else {
            num_events as u64
        };
        self.header.count = self.header.count - k;
        if k > 0 {
            self.header.head = (self.header.head + k) % (self.capacity as u64);
            proof {
                lemma_mod_bound((old(self).header.head + k) as int, self.capacity as int);
            }
        }
        proof {
            let q0 = *old(self);
            let cap = q0.capacity as int;
            let ki = k as int;
            if cap > 0 {
                if k == 0 {
                    lemma_small_mod(q0.header.head as nat, cap as nat);
                    assert(self.header.head == (q0.header.head + ki) % cap);
                }
                assert forall|i: int| 0 <= i < self.header.count implies self.spec_entry(i)
                    == q0.spec_entry(ki + i) by {
                    lemma_ring_shift(q0.header.head as int, cap, ki, i);
                }
            }
            assert(self.entries() =~= q0.entries().skip(ki));
        }
        Ok(())
    }

    /// Read the entry at ring slot `event_idx` as a materialized record.
    pub fn get_event(&self, event_idx: usize) -> (r: OrderbookEvent)
        requires
            self.wf(),
            event_idx < self.capacity,
        ensures
            r == spec_materialize(
                QueueEntry {
                    event: self.events@[event_idx as int],
                    maker: self.callbacks@[2 * event_idx],
                    taker: self.callbacks@[2 * event_idx + 1],
                },
            ),
    {
        let event = *vstd::std_specs::vec::vec_index(&self.events, event_idx);
        match event {
            QueueEvent::Fill(f) => {
                let maker_info = *vstd::std_specs::vec::vec_index(&self.callbacks, 2 * event_idx);
                let taker_info = *vstd::std_specs::vec::vec_index(
                    &self.callbacks,
                    2 * event_idx + 1,
                );
                OrderbookEvent::Fill(FillInfo { event: f, maker_info, taker_info })
            },
            QueueEvent::Out(o) => {
                let info = *vstd::std_specs::vec::vec_index(&self.callbacks, 2 * event_idx);
                OrderbookEvent::Out(OutInfo { event: o, info })
            },
        }
    }

    /// An iterator over the live entries, front to back.
    pub fn iter(&self) -> (r: QueueIterator<'_>)
        requires
            self.wf(),
        ensures
            r.queue == self,
            r.current_index == 0,
            r.remaining == self.header.count,
            r.wf(),
    {
        QueueIterator { queue: self, current_index: 0, remaining: self.header.count }
    }
}

/// Copy an optional borrowed record.
pub open spec fn spec_opt_copy(o: Option<&CallbackInfo>) -> Option<CallbackInfo> {
    match o {
        Some(c) => Some(*c),
        None => None,
    }
}

/// Walks a queue's live entries without draining them.
pub struct QueueIterator<'a> {
    pub queue: &'a EventQueue,
    pub current_index: usize,
    pub remaining: u64,
}

impl<'a> QueueIterator<'a> {
    pub open spec fn wf(self) -> bool {
        &&& self.queue.wf()
        &&& self.current_index + self.remaining == self.queue.header.count
    }

    /// The next live entry, materialized, or `None` when the walk is done.
    pub fn next(&mut self) -> (r: Option<OrderbookEvent>)
        requires
            old(self).wf(),
        ensures
            final(self).wf(),
            final(self).queue == old(self).queue,
            old(self).remaining == 0 ==> r is None && *final(self) == *old(self),
            old(self).remaining > 0 ==> {
                &&& final(self).current_index == old(self).current_index + 1
                &&& final(self).remaining == old(self).remaining - 1
                &&& r == Some(
                    spec_materialize(old(self).queue.entries()[old(self).current_index as int]),
                )
            },
    {
        if self.remaining == 0 {
            return None;
        }
        let cap = self.queue.capacity;
        let idx64 = (self.queue.header.head + self.current_index as u64) % (cap as u64);
        proof {
            lemma_mod_bound(
                (self.queue.header.head + self.current_index) as int,
                cap as int,
            );
        }
        let event_idx = idx64 as usize;
        self.current_index = self.current_index + 1;
        self.remaining = self.remaining - 1;
        Some(self.queue.get_event(event_idx))
    }
}

impl EventQueueHeader {
    /// The 16-byte form: head, then count, little-endian.
    pub open spec fn spec_ser(self) -> Seq<u8> {
        vstd::bytes::spec_u64_to_le_bytes(self.head) + vstd::bytes::spec_u64_to_le_bytes(
            self.count,
        )
    }

    pub open spec fn spec_parse(b: Seq<u8>) -> EventQueueHeader {
        EventQueueHeader {
            head: vstd::bytes::spec_u64_from_le_bytes(b.subrange(0, 8)),
            count: vstd::bytes::spec_u64_from_le_bytes(b.subrange(8, 16)),
        }
    }

    pub fn to_bytes(&self) -> (r: Vec<u8>)
        ensures
            r@ == self.spec_ser(),
            r@.len() == EVENT_QUEUE_HEADER_LEN,
    {
        proof {
            vstd::bytes::lemma_auto_spec_u64_to_from_le_bytes();
        }
        let mut r = vstd::bytes::u64_to_le_bytes(self.head);
        let mut c = vstd::bytes::u64_to_le_bytes(self.count);
        r.append(&mut c);
        r
    }

    pub fn from_bytes(b: &[u8]) -> (r: EventQueueHeader)
        requires
            b@.len() == EVENT_QUEUE_HEADER_LEN,
        ensures
            r == EventQueueHeader::spec_parse(b@),
    {
        proof {
            vstd::bytes::lemma_auto_spec_u64_to_from_le_bytes();
        }
        let head = vstd::bytes::u64_from_le_bytes(vstd::slice::slice_subrange(b, 0, 8));
        let count = vstd::bytes::u64_from_le_bytes(vstd::slice::slice_subrange(b, 8, 16));
        EventQueueHeader { head, count }
    }
}

/// Parsing a serialized header yields the header back.
pub proof fn lemma_header_round_trip(h: EventQueueHeader)
    ensures
        EventQueueHeader::spec_parse(h.spec_ser()) == h,
{
    vstd::bytes::lemma_auto_spec_u64_to_from_le_bytes();
    assert(h.spec_ser().subrange(0, 8) =~= vstd::bytes::spec_u64_to_le_bytes(h.head));
    assert(h.spec_ser().subrange(8, 16) =~= vstd::bytes::spec_u64_to_le_bytes(h.count));
}

/// Distinct offsets within one lap of the ring land on distinct slots.
pub proof fn lemma_ring_distinct(head: int, cap: int, i: int, j: int)
    requires
        0 <= head < cap,
        0 <= i < j < cap,
    ensures
        (head + i) % cap != (head + j) % cap,
{
    let a = head + i;
    let b = head + j;
    if a < cap {
        lemma_fundamental_div_mod_converse(a, cap, 0, a);
    } else {
        lemma_fundamental_div_mod_converse(a, cap, 1, a - cap);
    }
    if b < cap {
        lemma_fundamental_div_mod_converse(b, cap, 0, b);
    } else {
        lemma_fundamental_div_mod_converse(b, cap, 1, b - cap);
    }
}

/// Advancing the head by `k` then stepping `i` lands where stepping `k + i`
/// from the old head lands.
pub proof fn lemma_ring_shift(head: int, cap: int, k: int, i: int)
    requires
        0 <= head < cap,
        0 <= k,
        0 <= i < cap,
    ensures
        (((head + k) % cap) + i) % cap == (head + k + i) % cap,
{
    lemma_add_mod_noop(head + k, i, cap);
    lemma_small_mod(i as nat, cap as nat);
    lemma_mod_bound(head + k, cap);
    let m = (head + k) % cap;
    lemma_small_mod(m as nat, cap as nat);
    lemma_add_mod_noop(m, i, cap);
}

/// The concatenated 40-byte forms of the event slots.
pub open spec fn spec_events_bytes(s: Seq<QueueEvent>) -> Seq<u8>
    decreases s.len(),
{
    if s.len() == 0 {
        Seq::empty()
    } else {
        spec_events_bytes(s.drop_last()) + crate::events::spec_ser_event(s.last())
    }
}

/// The concatenated 167-byte forms of the callback slots.
pub open spec fn spec_callbacks_bytes(s: Seq<CallbackInfo>) -> Seq<u8>
    decreases s.len(),
{
    if s.len() == 0 {
        Seq::empty()
    } else {
        spec_callbacks_bytes(s.drop_last()) + s.last().spec_ser()
    }
}

pub proof fn lemma_events_bytes_len(s: Seq<QueueEvent>)
    ensures
        spec_events_bytes(s).len() == 40 * s.len(),
    decreases s.len(),
{
    vstd::bytes::lemma_auto_spec_u64_to_from_le_bytes();
    vstd::bytes::lemma_auto_spec_u128_to_from_le_bytes();
    if s.len() > 0 {
        lemma_events_bytes_len(s.drop_last());
    }
}

pub proof fn lemma_callbacks_bytes_len(s: Seq<CallbackInfo>)
    ensures
        spec_callbacks_bytes(s).len() == 167 * s.len(),
    decreases s.len(),
{
    vstd::bytes::lemma_auto_spec_u64_to_from_le_bytes();
    if s.len() > 0 {
        lemma_callbacks_bytes_len(s.drop_last());
    }
}

/// Slot `i` of the concatenated event bytes is the form of event `i`.
pub proof fn lemma_events_bytes_slot(s: Seq<QueueEvent>, i: int)
    requires
        0 <= i < s.len(),
    ensures
        spec_events_bytes(s).subrange(40 * i, 40 * i + 40) =~= crate::events::spec_ser_event(
            s[i],
        ),
    decreases s.len(),
{
    lemma_events_bytes_len(s);
    lemma_events_bytes_len(s.drop_last());
    if i == s.len() - 1 {
        assert(spec_events_bytes(s).subrange(40 * i, 40 * i + 40)
            =~= crate::events::spec_ser_event(s.last()));
    } else {
        lemma_events_bytes_slot(s.drop_last(), i);
        assert(spec_events_bytes(s).subrange(40 * i, 40 * i + 40) =~= spec_events_bytes(
            s.drop_last(),
        ).subrange(40 * i, 40 * i + 40));
    }
}

/// Slot `i` of the concatenated callback bytes is the form of record `i`.
pub proof fn lemma_callbacks_bytes_slot(s: Seq<CallbackInfo>, i: int)
    requires
        0 <= i < s.len(),
    ensures
        spec_callbacks_bytes(s).subrange(167 * i, 167 * i + 167) =~= s[i].spec_ser(),
    decreases s.len(),
{
    lemma_callbacks_bytes_len(s);
    lemma_callbacks_bytes_len(s.drop_last());
    if i == s.len() - 1 {
        assert(spec_callbacks_bytes(s).subrange(167 * i, 167 * i + 167) =~= s.last().spec_ser());
    } else {
        lemma_callbacks_bytes_slot(s.drop_last(), i);
        assert(spec_callbacks_bytes(s).subrange(167 * i, 167 * i + 167) =~= spec_callbacks_bytes(
            s.drop_last(),
        ).subrange(167 * i, 167 * i + 167));
    }
}

/// Law of the ring: pushing one entry and then popping up to `k` leaves
/// `count + 1 - min(k, count + 1)` live entries, and iteration yields the
/// pushed entries in insertion order — the survivors are the old entries
/// from position `min(k, count + 1)` on, with the new entry at the back.
pub proof fn lemma_push_then_pop(entries: Seq<QueueEntry>, e: QueueEntry, k: u64)
    requires
        entries.len() + 1 <= u64::MAX,
    ensures
        ({
            let m = spec_min_u64((entries.len() + 1) as u64, k) as int;
            let after = entries.push(e).skip(m);
            &&& after.len() == entries.len() + 1 - m
            &&& forall|i: int|
                0 <= i < after.len() ==> after[i] == (if m + i < entries.len() {
                    entries[m + i]
                } else {
                    e
                })
        }),
{
    let m = spec_min_u64((entries.len() + 1) as u64, k) as int;
    assert(forall|i: int|
        0 <= i < entries.push(e).skip(m).len() ==> entries.push(e).skip(m)[i] == entries.push(
            e,
        )[m + i]);
}

/// Serializing a well-formed queue and parsing the buffer back yields the
/// queue: header, capacity, every event slot and every callback slot.
pub proof fn lemma_queue_buffer_round_trip(q: EventQueue)
    requires
        q.wf(),
    ensures
        spec_queue_ok(q.spec_to_bytes(), q.is_adapter),
        spec_capacity_of(q.spec_to_bytes(), q.is_adapter) == q.capacity,
        spec_header_of(q.spec_to_bytes(), q.is_adapter) == q.header,
        forall|i: int|
            0 <= i < q.capacity ==> crate::events::spec_parse_event(
                #[trigger] spec_event_slot_bytes(q.spec_to_bytes(), q.is_adapter, i),
            ) == q.events@[i],
        forall|i: int|
            0 <= i < 2 * q.capacity ==> CallbackInfo::spec_parse(
                #[trigger] spec_callback_slot_bytes(q.spec_to_bytes(), q.is_adapter, i),
            ) == q.callbacks@[i],
{
    let b = q.spec_to_bytes();
    let ad = q.is_adapter;
    let base = spec_base_offset(ad);
    let ep = base + 16;
    let cap = q.capacity as int;
    vstd::bytes::lemma_auto_spec_u64_to_from_le_bytes();
    lemma_events_bytes_len(q.events@);
    lemma_callbacks_bytes_len(q.callbacks@);
    assert(b.len() == base + 16 + 40 * cap + 167 * (2 * cap));
    assert(40 * cap + 167 * (2 * cap) == cap * 374) by (nonlinear_arith);
    assert(cap * 374 >= 0) by (nonlinear_arith)
        requires
            cap >= 0,
    ;
    lemma_fundamental_div_mod_converse(cap * 374, 374, cap, 0);
    assert(spec_capacity_of(b, ad) == cap);
    assert(b.subrange(base, base + 16) =~= q.header.spec_ser());
    lemma_header_round_trip(q.header);
    assert(spec_header_of(b, ad) == q.header);
    assert forall|i: int| 0 <= i < cap implies crate::events::spec_parse_event(
        #[trigger] spec_event_slot_bytes(b, ad, i),
    ) == q.events@[i] by {
        assert(0 <= 40 * i && 40 * i + 40 <= 40 * cap) by (nonlinear_arith)
            requires
                0 <= i < cap,
        ;
        lemma_events_bytes_slot(q.events@, i);
        assert(spec_event_slot_bytes(b, ad, i) =~= spec_events_bytes(q.events@).subrange(
            40 * i,
            40 * i + 40,
        ));
        crate::events::lemma_event_round_trip(q.events@[i]);
    }
    assert forall|i: int| 0 <= i < 2 * cap implies CallbackInfo::spec_parse(
        #[trigger] spec_callback_slot_bytes(b, ad, i),
    ) == q.callbacks@[i] by {
        assert(0 <= 167 * i && 167 * i + 167 <= 167 * (2 * cap)) by (nonlinear_arith)
            requires
                0 <= i < 2 * cap,
        ;
        lemma_callbacks_bytes_slot(q.callbacks@, i);
        assert(spec_callback_slot_bytes(b, ad, i) =~= spec_callbacks_bytes(
            q.callbacks@,
        ).subrange(167 * i, 167 * i + 167));
        crate::callback::lemma_callback_info_round_trip(q.callbacks@[i]);
    }
    assert forall|j: int| 0 <= j < q.header.count implies #[trigger] spec_event_slot_bytes(
        b,
        ad,
        (q.header.head + j) % cap,
    )[0] <= 1 by {
        lemma_mod_bound(q.header.head + j, cap);
        let idx = (q.header.head + j) % cap;
        assert(0 <= 40 * idx && 40 * idx + 40 <= 40 * cap) by (nonlinear_arith)
            requires
                0 <= idx < cap,
        ;
        lemma_events_bytes_slot(q.events@, idx);
        assert(spec_event_slot_bytes(b, ad, idx) =~= spec_events_bytes(q.events@).subrange(
            40 * idx,
            40 * idx + 40,
        ));
    }
}

/// Offset of the ring inside an adapter account: the account discriminator
/// and the adapter metadata record stand before it.
pub const ADAPTER_RING_OFFSET: usize = 104;

/// Where the queue header starts in an account buffer.
pub open spec fn spec_base_offset(is_adapter: bool) -> int {
    if is_adapter {
        8 + ADAPTER_RING_OFFSET as int
    } else {
        8
    }
}

/// The buffer is long enough to hold a header at all.
pub open spec fn spec_layout_ok(buf: Seq<u8>, is_adapter: bool) -> bool {
    buf.len() >= spec_base_offset(is_adapter) + 16
}

/// Capacity implied by the buffer length: whole slots after the header.
pub open spec fn spec_capacity_of(buf: Seq<u8>, is_adapter: bool) -> int {
    (buf.len() - spec_base_offset(is_adapter) - 16) / (QUEUE_SLOT_LEN as int)
}

pub open spec fn spec_header_of(buf: Seq<u8>, is_adapter: bool) -> EventQueueHeader {
    EventQueueHeader::spec_parse(
        buf.subrange(spec_base_offset(is_adapter), spec_base_offset(is_adapter) + 16),
    )
}

/// Ring positions fit the capacity.
pub open spec fn spec_header_ok(h: EventQueueHeader, cap: int) -> bool {
    &&& h.count <= cap
    &&& (h.head < cap || (cap == 0 && h.head == 0))
}

/// The 40 bytes of event slot `i`.
pub open spec fn spec_event_slot_bytes(buf: Seq<u8>, is_adapter: bool, i: int) -> Seq<u8> {
    let ep = spec_base_offset(is_adapter) + 16;
    buf.subrange(ep + i * 40, ep + i * 40 + 40)
}

/// The 167 bytes of callback slot `i`.
pub open spec fn spec_callback_slot_bytes(buf: Seq<u8>, is_adapter: bool, i: int) -> Seq<u8> {
    let cp = spec_base_offset(is_adapter) + 16 + spec_capacity_of(buf, is_adapter) * 40;
    buf.subrange(cp + i * 167, cp + i * 167 + 167)
}

/// Every live slot carries a known event tag.
pub open spec fn spec_live_tags_ok(buf: Seq<u8>, is_adapter: bool) -> bool {
    let h = spec_header_of(buf, is_adapter);
    let cap = spec_capacity_of(buf, is_adapter);
    forall|j: int|
        0 <= j < h.count ==> #[trigger] spec_event_slot_bytes(
            buf,
            is_adapter,
            (h.head + j) % cap,
        )[0] <= 1
}

/// A buffer that deserializes: header present, positions in range, live
/// tags known.
pub open spec fn spec_queue_ok(buf: Seq<u8>, is_adapter: bool) -> bool {
    &&& spec_layout_ok(buf, is_adapter)
    &&& spec_header_ok(spec_header_of(buf, is_adapter), spec_capacity_of(buf, is_adapter))
    &&& spec_live_tags_ok(buf, is_adapter)
}

impl EventQueue {
    /// What a successful parse of `buf` looks like, field by field.
    pub open spec fn spec_parsed_from(self, key: AccountKey, buf: Seq<u8>, is_adapter: bool) -> bool {
        &&& self.key == key
        &&& self.is_adapter == is_adapter
        &&& self.capacity == spec_capacity_of(buf, is_adapter)
        &&& self.header == spec_header_of(buf, is_adapter)
        &&& forall|i: int|
            0 <= i < self.capacity ==> #[trigger] self.events@[i] == crate::events::spec_parse_event(
                spec_event_slot_bytes(buf, is_adapter, i),
            )
        &&& forall|i: int|
            0 <= i < 2 * self.capacity ==> #[trigger] self.callbacks@[i]
                == CallbackInfo::spec_parse(spec_callback_slot_bytes(buf, is_adapter, i))
    }

    /// Parse a queue from an account buffer. The capacity is what the
    /// length admits: `(len − header − discriminators) / slot`.
    fn deserialize(key: AccountKey, buf: &Vec<u8>, is_adapter: bool) -> (r: Result<
        EventQueue,
        BondsError,
    >)
        ensures
            r is Ok <==> spec_queue_ok(buf@, is_adapter),
            r is Ok ==> r.unwrap().wf() && r.unwrap().spec_parsed_from(key, buf@, is_adapter),
            r is Err ==> r == Err::<EventQueue, BondsError>(BondsError::InvalidEvent),
    {
        let base: usize = if is_adapter {
            8 + ADAPTER_RING_OFFSET
        } else {
            8
        };
        if buf.len() < base + 16 {
            return Err(BondsError::InvalidEvent);
        }
        let capacity = (buf.len() - base - 16) / QUEUE_SLOT_LEN;
        proof {
            vstd::arithmetic::div_mod::lemma_fundamental_div_mod(
                buf@.len() as int - base as int - 16,
                QUEUE_SLOT_LEN as int,
            );
            lemma_mod_bound(buf@.len() as int - base as int - 16, QUEUE_SLOT_LEN as int);
        }
        let ep = base + 16;
        proof {
            assert(QUEUE_SLOT_LEN == 374);
            assert((capacity as int) * 374 == (capacity as int) * 40 + 2 * (capacity as int)
                * 167) by (nonlinear_arith);
            assert(2 * (capacity as int) <= (capacity as int) * 374 || capacity == 0)
                by (nonlinear_arith);
            assert((capacity as int) * 40 <= (capacity as int) * 374) by (nonlinear_arith);
        }
        let header = EventQueueHeader::from_bytes(
            vstd::slice::slice_subrange(buf.as_slice(), base, base + 16),
        );
        if header.count > capacity as u64 {
            return Err(BondsError::InvalidEvent);
        }
        if capacity > 0 && header.head >= capacity as u64 {
            return Err(BondsError::InvalidEvent);
        }
        if capacity == 0 && header.head != 0 {
            return Err(BondsError::InvalidEvent);
        }
        let mut j: u64 = 0;
        while j < header.count
            invariant
                buf@.len() <= usize::MAX,
                spec_layout_ok(buf@, is_adapter),
                base == spec_base_offset(is_adapter),
                ep == base + 16,
                capacity == spec_capacity_of(buf@, is_adapter),
                (capacity as int) * (QUEUE_SLOT_LEN as int) <= buf@.len() - base - 16,
                (capacity as int) * 40 <= (capacity as int) * (QUEUE_SLOT_LEN as int),
                2 * (capacity as int) <= usize::MAX as int,
                header == spec_header_of(buf@, is_adapter),
                spec_header_ok(header, capacity as int),
                j <= header.count,
                forall|jj: int|
                    0 <= jj < j ==> #[trigger] spec_event_slot_bytes(
                        buf@,
                        is_adapter,
                        (header.head + jj) % (capacity as int),
                    )[0] <= 1,
            decreases header.count - j,
        {
            let idx64 = (header.head + j) % (capacity as u64);
            proof {
                lemma_mod_bound((header.head + j) as int, capacity as int);
            }
            let idx = idx64 as usize;
            proof {
                assert((idx as int) * 40 + 40 <= (capacity as int) * 40) by (nonlinear_arith)
                    requires
                        0 <= idx < capacity,
                ;
            }
            let tag = *vstd::slice::slice_index_get(buf.as_slice(), ep + idx * 40);
            if tag > 1 {
                proof {
                    let bi = spec_event_slot_bytes(buf@, is_adapter, idx as int);
                    assert(bi[0] == buf@[ep + idx * 40]);
                }
                return Err(BondsError::InvalidEvent);
            }
            j = j + 1;
        }
        let mut events: Vec<QueueEvent> = Vec::new();
        let mut i: usize = 0;
        while i < capacity
            invariant
                buf@.len() <= usize::MAX,
                spec_layout_ok(buf@, is_adapter),
                base == spec_base_offset(is_adapter),
                ep == base + 16,
                capacity == spec_capacity_of(buf@, is_adapter),
                (capacity as int) * (QUEUE_SLOT_LEN as int) <= buf@.len() - base - 16,
                (capacity as int) * 40 <= (capacity as int) * (QUEUE_SLOT_LEN as int),
                i <= capacity,
                events.len() == i,
                forall|k: int|
                    0 <= k < i ==> #[trigger] events@[k] == crate::events::spec_parse_event(
                        spec_event_slot_bytes(buf@, is_adapter, k),
                    ),
            decreases capacity - i,
        {
            proof {
                assert((i as int) * 40 + 40 <= (capacity as int) * 40) by (nonlinear_arith)
                    requires
                        0 <= i < capacity,
                ;
            }
            let slot = vstd::slice::slice_subrange(buf.as_slice(), ep + i * 40, ep + i * 40 + 40);
            events.push(crate::events::parse_event(slot));
            i += 1;
        }
        proof {
            assert(QUEUE_SLOT_LEN == 374);
            assert((capacity as int) * 374 == (capacity as int) * 40 + 2 * (capacity as int)
                * 167) by (nonlinear_arith);
        }
        let cp = ep + capacity * 40;
        let mut callbacks: Vec<CallbackInfo> = Vec::new();
        let mut c: usize = 0;
        while c < 2 * capacity
            invariant
                buf@.len() <= usize::MAX,
                spec_layout_ok(buf@, is_adapter),
                base == spec_base_offset(is_adapter),
                ep == base + 16,
                cp == ep + capacity * 40,
                capacity == spec_capacity_of(buf@, is_adapter),
                (cp as int) + 2 * (capacity as int) * 167 <= buf@.len(),
                2 * (capacity as int) <= usize::MAX as int,
                c <= 2 * capacity,
                callbacks.len() == c,
                forall|k: int|
                    0 <= k < c ==> #[trigger] callbacks@[k] == CallbackInfo::spec_parse(
                        spec_callback_slot_bytes(buf@, is_adapter, k),
                    ),
            decreases 2 * capacity - c,
        {
            proof {
                assert((c as int) * 167 + 167 <= 2 * (capacity as int) * 167) by (nonlinear_arith)
                    requires
                        0 <= c < 2 * capacity,
                ;
            }
            let slot = vstd::slice::slice_subrange(
                buf.as_slice(),
                cp + c * 167,
                cp + c * 167 + 167,
            );
            callbacks.push(CallbackInfo::from_bytes(slot));
            c += 1;
        }
        Ok(EventQueue { key, capacity, header, events, callbacks, is_adapter })
    }

    /// The full buffer form of the queue: a zeroed preamble (discriminator,
    /// and for adapters the metadata region, which the owner fills), the
    /// header, the event slots, then the callback slots.
    pub open spec fn spec_to_bytes(self) -> Seq<u8> {
        Seq::new(spec_base_offset(self.is_adapter) as nat, |i: int| 0u8) + self.header.spec_ser()
            + spec_events_bytes(self.events@) + spec_callbacks_bytes(self.callbacks@)
    }

    /// Serialize the queue into its buffer form.
    pub fn to_bytes(&self) -> (r: Vec<u8>)
        requires
            self.wf(),
        ensures
            r@ == self.spec_to_bytes(),
    {
        let base: usize = if self.is_adapter {
            8 + ADAPTER_RING_OFFSET
        } else {
            8
        };
        let mut r: Vec<u8> = Vec::new();
        crate::events::push_zeros(&mut r, base);
        let mut h = self.header.to_bytes();
        r.append(&mut h);
        let ghost prefix: Seq<u8> = r@;
        let mut i: usize = 0;
        while i < self.events.len()
            invariant
                i <= self.events.len(),
                prefix.len() == spec_base_offset(self.is_adapter) + 16,
                r@ =~= prefix + spec_events_bytes(self.events@.subrange(0, i as int)),
            decreases self.events.len() - i,
        {
            let e = *vstd::std_specs::vec::vec_index(&self.events, i);
            let mut eb = crate::events::ser_event(&e);
            r.append(&mut eb);
            proof {
                let s1 = self.events@.subrange(0, i + 1);
                assert(s1.drop_last() =~= self.events@.subrange(0, i as int));
                assert(s1.last() == self.events@[i as int]);
            }
            i += 1;
        }
        proof {
            assert(self.events@.subrange(0, self.events@.len() as int) =~= self.events@);
        }
        let ghost prefix2: Seq<u8> = r@;
        let mut c: usize = 0;
        while c < self.callbacks.len()
            invariant
                c <= self.callbacks.len(),
                r@ =~= prefix2 + spec_callbacks_bytes(self.callbacks@.subrange(0, c as int)),
            decreases self.callbacks.len() - c,
        {
            let cb = *vstd::std_specs::vec::vec_index(&self.callbacks, c);
            let mut cbb = cb.to_bytes();
            r.append(&mut cbb);
            proof {
                let s1 = self.callbacks@.subrange(0, c + 1);
                assert(s1.drop_last() =~= self.callbacks@.subrange(0, c as int));
                assert(s1.last() == self.callbacks@[c as int]);
            }
            c += 1;
        }
        proof {
            assert(self.callbacks@.subrange(0, self.callbacks@.len() as int) =~= self.callbacks@);
            assert(r@ =~= self.spec_to_bytes());
        }
        r
    }

    /// Parse a market's own event queue; the account must belong to the
    /// program.
    pub fn deserialize_market(
        key: AccountKey,
        account_owner: AccountKey,
        program_id: AccountKey,
        buf: &Vec<u8>,
    ) -> (r: Result<EventQueue, BondsError>)
        ensures
            account_owner != program_id ==> r == Err::<EventQueue, BondsError>(
                BondsError::WrongEventQueue,
            ),
            account_owner == program_id ==> {
                &&& (r is Ok <==> spec_queue_ok(buf@, false))
                &&& (r is Ok ==> r.unwrap().wf() && r.unwrap().spec_parsed_from(key, buf@, false))
                &&& (r is Err ==> r == Err::<EventQueue, BondsError>(BondsError::InvalidEvent))
            },
    {
        if !(account_owner == program_id) {
            return Err(BondsError::WrongEventQueue);
        }
        EventQueue::deserialize(key, buf, false)
    }

    /// Parse a user-owned adapter ring; the account must not belong to the
    /// program.
    pub fn deserialize_user_adapter(
        key: AccountKey,
        account_owner: AccountKey,
        program_id: AccountKey,
        buf: &Vec<u8>,
    ) -> (r: Result<EventQueue, BondsError>)
        ensures
            account_owner == program_id ==> r == Err::<EventQueue, BondsError>(
                BondsError::UserDoesNotOwnAdapter,
            ),
            account_owner != program_id ==> {
                &&& (r is Ok <==> spec_queue_ok(buf@, true))
                &&& (r is Ok ==> r.unwrap().wf() && r.unwrap().spec_parsed_from(key, buf@, true))
                &&& (r is Err ==> r == Err::<EventQueue, BondsError>(BondsError::InvalidEvent))
            },
    {
        if account_owner == program_id {
            return Err(BondsError::UserDoesNotOwnAdapter);
        }
        EventQueue::deserialize(key, buf, true)
    }
}

} // verus!
