use bond_orderbook::callback::AUTO_STAKE;
use bond_orderbook::events::OrderbookEvent;
use bond_orderbook::keys::AccountKey;
use bond_orderbook::market::{
    get_side_from_order_id, price_of_order_id, BondManager, BookOrder, OrderbookMut,
};
use bond_orderbook::orders::{OrderParams, OrderSummary, SelfTradeBehavior};
use bond_orderbook::queue::EventQueue;
use bond_orderbook::{BondsError, Side};

fn key(n: u64) -> AccountKey {
    AccountKey { w0: n, w1: 0, w2: 0, w3: 0 }
}

fn manager() -> BondManager {
    BondManager {
        key: key(1000),
        airspace: key(1001),
        orderbook_market_state: key(1002),
        event_queue: key(1003),
        bids: key(1004),
        asks: key(1005),
        orderbook_paused: false,
        duration: 3600,
        nonce: 0,
    }
}

fn market() -> OrderbookMut {
    OrderbookMut {
        manager: manager(),
        bids: Vec::new(),
        asks: Vec::new(),
        event_queue: EventQueue::new(key(1003), 8, false),
    }
}

fn params(base: u64, quote: u64, auto_stake: bool) -> OrderParams {
    OrderParams {
        max_bond_ticket_qty: base,
        max_underlying_token_qty: quote,
        limit_price: 1u64 << 32,
        match_limit: 100,
        post_only: false,
        post_allowed: true,
        auto_stake,
    }
}

fn posted(id: u128, base: u64) -> OrderSummary {
    OrderSummary {
        posted_order_id: Some(id),
        total_base_qty: base,
        total_quote_qty: base,
        total_base_qty_posted: base,
    }
}

#[test]
fn paused_market_refuses_orders() {
    let mut m = market();
    m.manager.orderbook_paused = true;
    let r = m.place_order(
        key(1),
        Side::Bid,
        params(100, 100, false),
        key(1),
        key(1),
        None,
        0,
        50,
        posted(1 << 96, 100),
    );
    assert_eq!(r.unwrap_err(), BondsError::OrderbookPaused);
    assert_eq!(m.manager.nonce, 0);
}

#[test]
fn no_fill_no_post_is_rejected() {
    let mut m = market();
    let summary = OrderSummary {
        posted_order_id: None,
        total_base_qty: 0,
        total_quote_qty: 0,
        total_base_qty_posted: 0,
    };
    let r = m.place_order(
        key(1),
        Side::Bid,
        params(100, 100, false),
        key(1),
        key(1),
        None,
        0,
        50,
        summary,
    );
    assert_eq!(r.unwrap_err(), BondsError::OrderRejected);
    assert_eq!(m.manager.nonce, 0);
}

#[test]
fn posted_order_is_recorded_and_nonce_advances() {
    let mut m = market();
    let id: u128 = 1u128 << 96;
    let (info, summary) = m
        .place_order(
            key(7),
            Side::Bid,
            params(200, 200, false),
            key(8),
            key(9),
            None,
            0,
            77,
            posted(id, 200),
        )
        .unwrap();
    assert_eq!(m.manager.nonce, 1);
    assert_eq!(m.bids.len(), 1);
    assert_eq!(m.bids[0].order_id, id);
    assert_eq!(m.bids[0].base_size, 200);
    assert_eq!(m.bids[0].info, info);
    assert_eq!(info.owner, key(7));
    assert_eq!(info.fill_account, key(8));
    assert_eq!(info.out_account, key(9));
    assert_eq!(info.order_submitted, 77);
    assert_eq!(summary.total_base_qty, 200);
}

#[test]
fn successive_orders_get_distinct_tags() {
    let mut m = market();
    let (a, _) = m
        .place_order(
            key(7),
            Side::Bid,
            params(10, 10, false),
            key(8),
            key(8),
            None,
            0,
            1,
            posted(1 << 96, 10),
        )
        .unwrap();
    let (b, _) = m
        .place_order(
            key(7),
            Side::Bid,
            params(10, 10, false),
            key(8),
            key(8),
            None,
            0,
            2,
            posted(2 << 96, 10),
        )
        .unwrap();
    assert_ne!(a.order_tag, b.order_tag);
}

#[test]
fn auto_stake_params_set_the_flag() {
    let p = params(10, 10, true);
    assert_eq!(p.callback_flags(), AUTO_STAKE);
    let info = bond_orderbook::callback::CallbackInfo {
        order_tag: bond_orderbook::tag::OrderTag { t0: 0, t1: 0 },
        owner: key(1),
        fill_account: key(1),
        out_account: key(1),
        adapter_account_key: key(0),
        order_submitted: 0,
        flags: 0,
    };
    let translated = p.as_new_order_params(Side::Ask, info);
    assert_eq!(translated.side, Side::Ask);
    assert_eq!(translated.max_base_qty, 10);
    assert_eq!(translated.self_trade_behavior, SelfTradeBehavior::AbortTransaction);
}

#[test]
fn cancel_of_missing_order_fails() {
    let mut m = market();
    let r = m.cancel_order(1 << 96, key(7));
    assert_eq!(r.unwrap_err(), BondsError::OrderNotFound);
}

#[test]
fn wrong_owner_cancel_fails() {
    // An ask placed by user A may not be canceled by user B.
    let mut m = market();
    let id: u128 = (1u128 << 127) | (1u128 << 96);
    m.place_order(
        key(7),
        Side::Ask,
        params(100, 100, false),
        key(8),
        key(9),
        None,
        0,
        5,
        posted(id, 100),
    )
    .unwrap();
    let r = m.cancel_order(id, key(55));
    assert_eq!(r.unwrap_err(), BondsError::WrongUserAccount);
    assert_eq!(m.asks.len(), 1);
    assert_eq!(m.event_queue.header.count, 0);
}

#[test]
fn cancel_emits_the_out_event_and_removes_the_order() {
    let mut m = market();
    let id: u128 = (1u64 as u128) << 96;  // price 1.0 in the high 64 bits
    let (info, _) = m
        .place_order(
            key(7),
            Side::Bid,
            params(200, 200, false),
            key(8),
            key(9),
            None,
            0,
            5,
            posted(id, 200),
        )
        .unwrap();
    let (side, flags, summary) = m.cancel_order(id, key(7)).unwrap();
    assert_eq!(side, Side::Bid);
    assert_eq!(flags, 0);
    assert_eq!(summary.total_base_qty, 200);
    assert_eq!(summary.total_quote_qty, 200);
    assert!(m.bids.is_empty());
    assert_eq!(m.event_queue.header.count, 1);
    match m.event_queue.iter().next().unwrap() {
        OrderbookEvent::Out(o) => {
            assert_eq!(o.event.side, 0);
            assert_eq!(o.event.order_id, id);
            assert_eq!(o.event.base_size, 200);
            assert_eq!(o.info, info);
        }
        OrderbookEvent::Fill(_) => panic!("expected an out"),
    }
}

#[test]
fn cancel_with_full_queue_changes_nothing() {
    let mut m = OrderbookMut {
        manager: manager(),
        bids: Vec::new(),
        asks: Vec::new(),
        event_queue: EventQueue::new(key(1003), 0, false),
    };
    let id: u128 = 5u128 << 64;
    let (info, _) = m
        .place_order(
            key(7),
            Side::Bid,
            params(10, 10, false),
            key(8),
            key(9),
            None,
            0,
            5,
            posted(id, 10),
        )
        .unwrap();
    let r = m.cancel_order(id, key(7));
    assert_eq!(r.unwrap_err(), BondsError::EventQueueFull);
    assert_eq!(m.bids.len(), 1);
    assert_eq!(m.bids[0].info, info);
}

#[test]
fn side_and_price_come_from_the_order_id() {
    let bid_id: u128 = 3u128 << 64;
    let ask_id: u128 = (1u128 << 127) | (3u128 << 64);
    assert_eq!(get_side_from_order_id(bid_id), Side::Bid);
    assert_eq!(get_side_from_order_id(ask_id), Side::Ask);
    assert_eq!(price_of_order_id(bid_id), 3);
}

#[test]
fn book_orders_hold_their_metadata() {
    let order = BookOrder {
        order_id: 9,
        base_size: 10,
        info: bond_orderbook::callback::CallbackInfo {
            order_tag: bond_orderbook::tag::OrderTag { t0: 1, t1: 2 },
            owner: key(3),
            fill_account: key(4),
            out_account: key(5),
            adapter_account_key: key(0),
            order_submitted: 0,
            flags: 0,
        },
    };
    assert_eq!(order.info.adapter(), None);
    assert_eq!(order.info.as_callback_id(), key(3));
    assert_eq!(order.info.order_submitted_timestamp(), 0);
}
