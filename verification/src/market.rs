//! Per-market state and the order paths: placement (around the external
//! matcher) and cancellation.
//!
//! The price-time-priority matcher itself is an external collaborator; the
//! engine hands it a parameter record and takes back an `OrderSummary`.
//! `place_order` therefore takes the matcher's summary as an argument,
//! builds and records everything around it, and enforces the acceptance
//! predicate. `cancel_order` removes the resting order from the side book
//! and enqueues the Out event the matcher would emit.
use crate::callback::{CallbackFlags, CallbackInfo, CALLBACK_INFO_LEN};
use crate::events::{OutEvent, QueueEvent};
use crate::fp32::spec_fp32_mul_sat;
use crate::keys::AccountKey;
use crate::orders::{OrderParams, OrderSummary};
use crate::queue::EventQueue;
use crate::tag::OrderTag;
use crate::{BondsError, Side};
use vstd::prelude::*;

verus! {

/// Byte length of one resting-order leaf in the matcher's book.
pub const LEAF_NODE_LEN: usize = 32;

/// Byte length of one inner node in the matcher's book.
pub const INNER_NODE_LEN: usize = 32;

/// Byte length of the matcher's book header.
pub const SLAB_HEADER_LEN: usize = 65;

/// Byte length of a side-book account sized for `capacity` resting orders.
pub fn orderbook_slab_len(capacity: usize) -> (r: usize)
    requires
        capacity * (LEAF_NODE_LEN + CALLBACK_INFO_LEN + INNER_NODE_LEN) + SLAB_HEADER_LEN
            + LEAF_NODE_LEN + CALLBACK_INFO_LEN + 8 <= usize::MAX,
    ensures
        r == capacity * (LEAF_NODE_LEN + CALLBACK_INFO_LEN + INNER_NODE_LEN) + SLAB_HEADER_LEN
            + LEAF_NODE_LEN + CALLBACK_INFO_LEN + 8,
{
    capacity * (LEAF_NODE_LEN + CALLBACK_INFO_LEN + INNER_NODE_LEN) + SLAB_HEADER_LEN
        + LEAF_NODE_LEN + CALLBACK_INFO_LEN + 8
}

/// The side an order id encodes, in its highest bit: 0 is a bid, 1 an ask.
pub open spec fn spec_side_of_order_id(order_id: u128) -> Side {
    if order_id >> 127 == 0 {
        Side::Bid
    } else {
        Side::Ask
    }
}

pub fn get_side_from_order_id(order_id: u128) -> (r: Side)
    ensures
        r == spec_side_of_order_id(order_id),
{
    if order_id >> 127 == 0 {
        Side::Bid
    } else {
        Side::Ask
    }
}

/// The fixed-point price an order id carries in its high 64 bits.
pub open spec fn spec_price_of_order_id(order_id: u128) -> u64 {
    (order_id >> 64) as u64
}

pub fn price_of_order_id(order_id: u128) -> (r: u64)
    ensures
        r == spec_price_of_order_id(order_id),
{
    (order_id >> 64) as u64
}

/// The per-market header: tenor, handles, pause flag and the order nonce.
#[derive(Clone, Copy, Debug, PartialEq, Eq, Structural)]
pub struct BondManager {
    /// Key of the market itself.
    pub key: AccountKey,
    /// The airspace this market belongs to.
    pub airspace: AccountKey,
    /// Key of the matcher's market-state account.
    pub orderbook_market_state: AccountKey,
    /// Key of the event queue account.
    pub event_queue: AccountKey,
    /// Key of the bids book account.
    pub bids: AccountKey,
    /// Key of the asks book account.
    pub asks: AccountKey,
    /// When set, no orders may be placed.
    pub orderbook_paused: bool,
    /// Tenor: seconds from fill to maturation.
    pub duration: i64,
    /// Monotonic order counter; never reused, even across cancels.
    pub nonce: u64,
}

/// One resting order as the engine's book model records it.
#[derive(Clone, Copy, Debug, PartialEq, Eq, Structural)]
pub struct BookOrder {
    pub order_id: u128,
    pub base_size: u64,
    pub info: CallbackInfo,
}

/// Index of the first order with the given id, front to back.
pub open spec fn spec_find_order(book: Seq<BookOrder>, order_id: u128) -> Option<int>
    decreases book.len(),
{
    if book.len() == 0 {
        None
    } else if book[0].order_id == order_id {
        Some(0)
    } else {
        match spec_find_order(book.skip(1), order_id) {
            Some(i) => Some(i + 1),
            None => None,
        }
    }
}

/// A position whose prefix holds no match is the first match.
pub proof fn lemma_find_order_at(book: Seq<BookOrder>, order_id: u128, i: int)
    requires
        0 <= i < book.len(),
        book[i].order_id == order_id,
        forall|j: int| 0 <= j < i ==> #[trigger] book[j].order_id != order_id,
    ensures
        spec_find_order(book, order_id) == Some(i),
    decreases book.len(),
{
    if i > 0 {
        lemma_find_order_at(book.skip(1), order_id, i - 1);
    }
}

/// A book with no match anywhere finds none.
pub proof fn lemma_find_order_none(book: Seq<BookOrder>, order_id: u128)
    requires
        forall|j: int| 0 <= j < book.len() ==> #[trigger] book[j].order_id != order_id,
    ensures
        spec_find_order(book, order_id) is None,
    decreases book.len(),
{
    if book.len() > 0 {
        lemma_find_order_none(book.skip(1), order_id);
    }
}

/// Everything that changes together when the orderbook is touched: the
/// market header, the two side books, and the event queue.
pub struct OrderbookMut {
    pub manager: BondManager,
    pub bids: Vec<BookOrder>,
    pub asks: Vec<BookOrder>,
    pub event_queue: EventQueue,
}

impl OrderbookMut {
    pub open spec fn wf(self) -> bool {
        &&& self.event_queue.wf()
        &&& !self.event_queue.is_adapter
    }

    /// The model of one side's book.
    pub open spec fn spec_book(self, side: Side) -> Seq<BookOrder> {
        match side {
            Side::Bid => self.bids@,
            Side::Ask => self.asks@,
        }
    }

    /// The metadata `place_order` writes for the next order.
    pub open spec fn spec_new_callback_info(
        self,
        owner: AccountKey,
        params: OrderParams,
        fill: AccountKey,
        out: AccountKey,
        adapter: Option<AccountKey>,
        extra_flags: CallbackFlags,
        now: i64,
    ) -> CallbackInfo {
        CallbackInfo {
            order_tag: OrderTag::spec_generate(
                self.manager.key.spec_bytes(),
                fill.spec_bytes(),
                self.manager.nonce,
            ),
            owner,
            fill_account: fill,
            out_account: out,
            adapter_account_key: match adapter {
                Some(a) => a,
                None => AccountKey::spec_zero(),
            },
            order_submitted: now,
            flags: params.spec_callback_flags() | extra_flags,
        }
    }

    /// Place an order: refuse a paused market, build the order's metadata
    /// under the next nonce, hold the matcher's summary to the acceptance
    /// predicate (something must have filled or posted), and record any
    /// posted remainder in the side book. The matcher's own effects — the
    /// fills it wrote to the queue — stand in `summary` and in the queue
    /// already; this call adds none.
    pub fn place_order(
        &mut self,
        owner: AccountKey,
        side: Side,
        params: OrderParams,
        fill: AccountKey,
        out: AccountKey,
        adapter: Option<AccountKey>,
        extra_flags: CallbackFlags,
        now: i64,
        summary: OrderSummary,
    ) -> (r: Result<(CallbackInfo, OrderSummary), BondsError>)
        requires
            old(self).wf(),
            old(self).manager.nonce < u64::MAX,
        ensures
            final(self).wf(),
            old(self).manager.orderbook_paused ==> r == Err::<
                (CallbackInfo, OrderSummary),
                BondsError,
            >(BondsError::OrderbookPaused) && *final(self) == *old(self),
            !old(self).manager.orderbook_paused && summary.posted_order_id is None
                && summary.total_base_qty == 0 ==> r == Err::<
                (CallbackInfo, OrderSummary),
                BondsError,
            >(BondsError::OrderRejected) && *final(self) == *old(self),
            !old(self).manager.orderbook_paused && (summary.posted_order_id is Some
                || summary.total_base_qty > 0) ==> ({
                let ci = old(self).spec_new_callback_info(
                    owner,
                    params,
                    fill,
                    out,
                    adapter,
                    extra_flags,
                    now,
                );
                &&& r == Ok::<(CallbackInfo, OrderSummary), BondsError>((ci, summary))
                &&& final(self).manager == (BondManager {
                    nonce: (old(self).manager.nonce + 1) as u64,
                    ..old(self).manager
                })
                &&& final(self).event_queue == old(self).event_queue
                &&& match summary.posted_order_id {
                    Some(id) => final(self).spec_book(side) == old(self).spec_book(side).push(
                        (BookOrder { order_id: id, base_size: summary.total_base_qty_posted, info: ci }),
                    ) && final(self).spec_book(side.spec_opposite()) == old(self).spec_book(
                        side.spec_opposite(),
                    ),
                    None => final(self).bids@ == old(self).bids@ && final(self).asks@ == old(
                        self,
                    ).asks@,
                }
            }),
    {
        if self.manager.orderbook_paused {
            return Err(BondsError::OrderbookPaused);
        }
        let accepted = match summary.posted_order_id {
            Some(_) => true,
            None => summary.total_base_qty > 0,
        };
        if !accepted {
            return Err(BondsError::OrderRejected);
        }
        let adapter_key = match adapter {
            Some(a) => a,
            None => AccountKey::zero(),
        };
        let callback_info = CallbackInfo::new(
            self.manager.key,
            owner,
            fill,
            out,
            adapter_key,
            now,
            params.callback_flags() | extra_flags,
            self.manager.nonce,
        );
        self.manager.nonce = self.manager.nonce + 1;
        if let Some(id) = summary.posted_order_id {
            let entry = BookOrder {
                order_id: id,
                base_size: summary.total_base_qty_posted,
                info: callback_info,
            };
            match side {
                Side::Bid => self.bids.push(entry),
                Side::Ask => self.asks.push(entry),
            }
        }
        Ok((callback_info, summary))
    }

    /// Cancel a resting order: decode the side from the order id, find the
    /// order in that side's book, check the owner, enqueue the Out event
    /// the matcher emits, and remove the order. Asset returns stay with
    /// the caller (the Out event drives them at consume time).
    pub fn cancel_order(&mut self, order_id: u128, owner: AccountKey) -> (r: Result<
        (Side, CallbackFlags, OrderSummary),
        BondsError,
    >)
        requires
            old(self).wf(),
        ensures
            final(self).wf(),
            ({
                let side = spec_side_of_order_id(order_id);
                let book = old(self).spec_book(side);
                match spec_find_order(book, order_id) {
                    None => r == Err::<(Side, CallbackFlags, OrderSummary), BondsError>(
                        BondsError::OrderNotFound,
                    ) && *final(self) == *old(self),
                    Some(i) => {
                        let e = book[i];
                        if e.info.owner != owner {
                            r == Err::<(Side, CallbackFlags, OrderSummary), BondsError>(
                                BondsError::WrongUserAccount,
                            ) && *final(self) == *old(self)
                        } else if old(self).event_queue.header.count
                            == old(self).event_queue.capacity {
                            r == Err::<(Side, CallbackFlags, OrderSummary), BondsError>(
                                BondsError::EventQueueFull,
                            ) && *final(self) == *old(self)
                        } else {
                            let out_event = OutEvent {
                                side: side.spec_as_u8(),
                                order_id,
                                base_size: e.base_size,
                            };
                            &&& r == Ok::<(Side, CallbackFlags, OrderSummary), BondsError>(
                                (
                                    side,
                                    e.info.flags,
                                    OrderSummary {
                                        posted_order_id: None,
                                        total_base_qty: e.base_size,
                                        total_quote_qty: spec_fp32_mul_sat(
                                            e.base_size,
                                            spec_price_of_order_id(order_id),
                                        ),
                                        total_base_qty_posted: 0,
                                    },
                                ),
                            )
                            &&& final(self).manager == old(self).manager
                            &&& final(self).spec_book(side) == book.remove(i)
                            &&& final(self).spec_book(side.spec_opposite()) == old(
                                self,
                            ).spec_book(side.spec_opposite())
                            &&& final(self).event_queue.entries() =~= old(
                                self,
                            ).event_queue.entries().push(
                                old(self).event_queue.spec_pushed_entry(
                                    QueueEvent::Out(out_event),
                                    Some(e.info),
                                    None,
                                ),
                            )
                            &&& final(self).event_queue.header.count == old(
                                self,
                            ).event_queue.header.count + 1
                            &&& final(self).event_queue.header.head == old(
                                self,
                            ).event_queue.header.head
                            &&& final(self).event_queue.capacity == old(self).event_queue.capacity
                            &&& final(self).event_queue.key == old(self).event_queue.key
                        }
                    },
                }
            }),
    {
        let side = get_side_from_order_id(order_id);
        let book_len = match side {
            Side::Bid => self.bids.len(),
            Side::Ask => self.asks.len(),
        };
        let ghost book = self.spec_book(side);
        let mut i: usize = 0;
        let mut found: Option<usize> = None;
        while i < book_len
            invariant
                book_len == book.len(),
                book == self.spec_book(side),
                i <= book_len,
                match found {
                    Some(fi) => fi < book.len() && book[fi as int].order_id == order_id && (forall|
                        j: int,
                    | 0 <= j < fi ==> #[trigger] book[j].order_id != order_id),
                    None => forall|j: int| 0 <= j < i ==> #[trigger] book[j].order_id != order_id,
                },
            decreases book_len - i,
        {
            let e = match side {
                Side::Bid => *vstd::std_specs::vec::vec_index(&self.bids, i),
                Side::Ask => *vstd::std_specs::vec::vec_index(&self.asks, i),
            };
            if found.is_none() && e.order_id == order_id {
                found = Some(i);
            }
            i += 1;
        }
        let idx = match found {
            Some(fi) => fi,
            None => {
                proof {
                    lemma_find_order_none(book, order_id);
                }
                return Err(BondsError::OrderNotFound);
            },
        };
        proof {
            lemma_find_order_at(book, order_id, idx as int);
        }
        let e = match side {
            Side::Bid => *vstd::std_specs::vec::vec_index(&self.bids, idx),
            Side::Ask => *vstd::std_specs::vec::vec_index(&self.asks, idx),
        };
        if !(e.info.owner == owner) {
            return Err(BondsError::WrongUserAccount);
        }
        let out_event = OutEvent {
            side: side.as_u8(),
            order_id,
            base_size: e.base_size,
        };
        let push_result = self.event_queue.push_event(&out_event, Some(&e.info), None);
        if push_result.is_err() {
            return Err(BondsError::EventQueueFull);
        }
        match side {
            Side::Bid => {
                self.bids.remove(idx);
            },
            Side::Ask => {
                self.asks.remove(idx);
            },
        }
        let quote = crate::fp32::fp32_mul_sat(e.base_size, price_of_order_id(order_id));
        let summary = OrderSummary {
            posted_order_id: None,
            total_base_qty: e.base_size,
            total_quote_qty: quote,
            total_base_qty_posted: 0,
        };
        Ok((side, e.info.flags, summary))
    }
}

} // verus!
