//! Market initialization: binding the matcher's accounts into the market
//! header and preparing the matcher's create-market parameters.
use crate::keys::AccountKey;
use crate::market::BondManager;
use crate::{BondsError, TICK_SIZE};
use vstd::prelude::*;

verus! {

/// What orderbook initialization asks for.
#[derive(Clone, Copy, Debug, PartialEq, Eq, Structural)]
pub struct InitializeOrderbookParams {
    /// The minimum order size that can rest in the book after matching.
    pub min_base_order_size: u64,
}

/// The parameters the external matcher's create-market call receives.
#[derive(Clone, Copy, Debug, PartialEq, Eq, Structural)]
pub struct CreateMarketParams {
    pub min_base_order_size: u64,
    pub tick_size: u64,
}

/// Initialize the orderbook of a market: only the airspace authority may
/// sign; the matcher's four account keys are written into the market
/// header, and the matcher's create-market parameters come back, with the
/// tick size pinned.
pub fn handler(
    manager: &mut BondManager,
    orderbook_market_state: AccountKey,
    event_queue: AccountKey,
    bids: AccountKey,
    asks: AccountKey,
    authority: AccountKey,
    airspace_authority: AccountKey,
    params: InitializeOrderbookParams,
) -> (r: Result<CreateMarketParams, BondsError>)
    ensures
        authority != airspace_authority ==> r == Err::<CreateMarketParams, BondsError>(
            BondsError::WrongAirspaceAuthorization,
        ) && *final(manager) == *old(manager),
        authority == airspace_authority ==> r == Ok::<CreateMarketParams, BondsError>(
            (CreateMarketParams { min_base_order_size: params.min_base_order_size, tick_size: TICK_SIZE }),
        ) && *final(manager) == (BondManager {
            orderbook_market_state,
            event_queue,
            bids,
            asks,
            ..*old(manager)
        }),
{
    if !(authority == airspace_authority) {
        return Err(BondsError::WrongAirspaceAuthorization);
    }
    manager.orderbook_market_state = orderbook_market_state;
    manager.event_queue = event_queue;
    manager.bids = bids;
    manager.asks = asks;
    Ok(
        CreateMarketParams {
            min_base_order_size: params.min_base_order_size,
            tick_size: TICK_SIZE,
        },
    )
}

} // verus!
