//! Order placement parameters, their translation into the matcher's
//! parameter record, and the quantities implied by a matcher summary.
use crate::callback::{CallbackFlags, CallbackInfo, AUTO_STAKE};
use crate::fp32::{fp32_mul_sat, spec_fp32_mul_sat};
use crate::Side;
use vstd::prelude::*;

verus! {

/// What a caller asks of the matcher.
#[derive(Clone, Copy, Debug, PartialEq, Eq, Structural)]
pub struct OrderParams {
    /// The maximum quantity of bond tickets to be traded.
    pub max_bond_ticket_qty: u64,
    /// The maximum quantity of underlying token to be traded.
    pub max_underlying_token_qty: u64,
    /// The limit price, as a 32-bit fixed point number.
    pub limit_price: u64,
    /// The maximum number of postings to match against.
    pub match_limit: u64,
    /// Do not match; write the order straight into the book.
    pub post_only: bool,
    /// Post any unfilled remainder to the book.
    pub post_allowed: bool,
    /// Stake purchased tickets at once.
    pub auto_stake: bool,
}

/// How the matcher treats an order that would match the caller's own
/// resting order. This engine always aborts: self-trade is never a match.
#[derive(Clone, Copy, Debug, PartialEq, Eq, Structural)]
pub enum SelfTradeBehavior {
    DecrementTake,
    CancelProvide,
    AbortTransaction,
}

/// The parameter record handed to the matcher.
#[derive(Clone, Copy, Debug, PartialEq, Eq, Structural)]
pub struct NewOrderParams {
    pub max_base_qty: u64,
    pub max_quote_qty: u64,
    pub limit_price: u64,
    pub side: Side,
    pub match_limit: u64,
    pub callback_info: CallbackInfo,
    pub post_only: bool,
    pub post_allowed: bool,
    pub self_trade_behavior: SelfTradeBehavior,
}

impl OrderParams {
    /// The callback flags these parameters imply (other flags may be set
    /// for other reasons).
    pub open spec fn spec_callback_flags(self) -> CallbackFlags {
        if self.auto_stake {
            AUTO_STAKE
        } else {
            0
        }
    }

    pub fn callback_flags(&self) -> (r: CallbackFlags)
        ensures
            r == self.spec_callback_flags(),
    {
        if self.auto_stake {
            AUTO_STAKE
        } else {
            0
        }
    }

    /// Translate into the matcher's parameter record; self-trade behavior
    /// is pinned to abort.
    pub fn as_new_order_params(&self, side: Side, callback_info: CallbackInfo) -> (r:
        NewOrderParams)
        ensures
            r == (NewOrderParams {
                max_base_qty: self.max_bond_ticket_qty,
                max_quote_qty: self.max_underlying_token_qty,
                limit_price: self.limit_price,
                side,
                match_limit: self.match_limit,
                callback_info,
                post_only: self.post_only,
                post_allowed: self.post_allowed,
                self_trade_behavior: SelfTradeBehavior::AbortTransaction,
            }),
    {
        NewOrderParams {
            max_base_qty: self.max_bond_ticket_qty,
            max_quote_qty: self.max_underlying_token_qty,
            limit_price: self.limit_price,
            side,
            match_limit: self.match_limit,
            callback_info,
            post_only: self.post_only,
            post_allowed: self.post_allowed,
            self_trade_behavior: SelfTradeBehavior::AbortTransaction,
        }
    }
}

/// What the matcher reports back for one order.
#[derive(Clone, Copy, Debug, PartialEq, Eq, Structural)]
pub struct OrderSummary {
    /// Identifier of the posted remainder, if any part rested.
    pub posted_order_id: Option<u128>,
    /// Base quantity filled plus posted.
    pub total_base_qty: u64,
    /// Quote quantity filled plus posted.
    pub total_quote_qty: u64,
    /// Base quantity posted to the book.
    pub total_base_qty_posted: u64,
}

impl OrderSummary {
    /// Base quantity that matched immediately.
    pub fn base_filled(&self) -> (r: u64)
        requires
            self.total_base_qty_posted <= self.total_base_qty,
        ensures
            r == self.total_base_qty - self.total_base_qty_posted,
    {
        self.total_base_qty - self.total_base_qty_posted
    }

    /// Quote value of the posted remainder at the limit price, saturating.
    pub open spec fn spec_quote_posted(self, limit_price: u64) -> u64 {
        spec_fp32_mul_sat(self.total_base_qty_posted, limit_price)
    }

    pub fn quote_posted(&self, limit_price: u64) -> (r: u64)
        ensures
            r == self.spec_quote_posted(limit_price),
    {
        fp32_mul_sat(self.total_base_qty_posted, limit_price)
    }

    /// Quote quantity that matched immediately.
    pub fn quote_filled(&self, limit_price: u64) -> (r: u64)
        requires
            self.spec_quote_posted(limit_price) <= self.total_quote_qty,
        ensures
            r == self.total_quote_qty - self.spec_quote_posted(limit_price),
    {
        self.total_quote_qty - self.quote_posted(limit_price)
    }
}

} // verus!
