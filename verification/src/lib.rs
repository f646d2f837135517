//! Fixed-term bond orderbook engine: order metadata, the Fill/Out event
//! queue, and the settlement state machine that drains it.
use vstd::prelude::*;

pub mod adapter;
pub mod callback;
pub mod config;
pub mod consume;
pub mod control;
pub mod events;
pub mod fp32;
pub mod hashing;
pub mod keys;
pub mod market;
pub mod orders;
pub mod queue;
pub mod settle;
pub mod tag;

verus! {

/// Errors surfaced to callers of the engine.
#[derive(Clone, Copy, Debug, PartialEq, Eq, Structural)]
pub enum BondsError {
    /// The market is paused; no orders may be placed.
    OrderbookPaused,
    /// The matcher neither filled nor posted any part of the order.
    OrderRejected,
    /// No resting order has the given order id.
    OrderNotFound,
    /// A supplied account does not match the one the order metadata names.
    WrongUserAccount,
    /// A supplied adapter account does not match the order's adapter key.
    WrongAdapter,
    /// A consume call processed no events.
    NoEvents,
    /// The seed list ran out before every new settlement record got one.
    InsufficientSeeds,
    /// A computation left the representable range.
    ArithmeticOverflow,
    /// An adapter queue account is owned by the program itself.
    UserDoesNotOwnAdapter,
    /// An event queue account is not owned by the program.
    WrongEventQueue,
    /// The market state account is not owned by the program.
    MarketStateNotProgramOwned,
    /// An event slot does not hold a recognizable event.
    InvalidEvent,
    /// The signer is not the airspace authority.
    WrongAirspaceAuthorization,
    /// The event queue is at capacity; nothing further may be enqueued.
    EventQueueFull,
}

/// A side of the book. Bids lend quote for tickets; asks sell tickets for
/// quote.
#[derive(Clone, Copy, Debug, PartialEq, Eq, Structural)]
pub enum Side {
    Bid,
    Ask,
}

impl Side {
    pub open spec fn spec_opposite(self) -> Side {
        match self {
            Side::Bid => Side::Ask,
            Side::Ask => Side::Bid,
        }
    }

    pub fn opposite(self) -> (r: Side)
        ensures
            r == self.spec_opposite(),
    {
        match self {
            Side::Bid => Side::Ask,
            Side::Ask => Side::Bid,
        }
    }

    pub open spec fn spec_from_u8(v: u8) -> Option<Side> {
        if v == 0 {
            Some(Side::Bid)
        } else if v == 1 {
            Some(Side::Ask)
        } else {
            None
        }
    }

    pub fn from_u8(v: u8) -> (r: Option<Side>)
        ensures
            r == Side::spec_from_u8(v),
    {
        if v == 0 {
            Some(Side::Bid)
        } else if v == 1 {
            Some(Side::Ask)
        } else {
            None
        }
    }

    pub open spec fn spec_as_u8(self) -> u8 {
        match self {
            Side::Bid => 0,
            Side::Ask => 1,
        }
    }

    pub fn as_u8(self) -> (r: u8)
        ensures
            r == self.spec_as_u8(),
    {
        match self {
            Side::Bid => 0,
            Side::Ask => 1,
        }
    }
}

/// The tick size used in fixed-point operations on the orderbook.
pub const TICK_SIZE: u64 = 1;

} // verus!
