use bond_orderbook::adapter::{handler as register_adapter, EventAdapterMetadata, RegisterAdapterParams};
use bond_orderbook::config::parse_symbol_pair;
use bond_orderbook::control::{handler as initialize_orderbook, InitializeOrderbookParams};
use bond_orderbook::keys::AccountKey;
use bond_orderbook::market::{orderbook_slab_len, BondManager};
use bond_orderbook::orders::OrderSummary;
use bond_orderbook::queue::{event_queue_len, QUEUE_SLOT_LEN};
use bond_orderbook::{BondsError, TICK_SIZE};

fn key(n: u64) -> AccountKey {
    AccountKey { w0: n, w1: 0, w2: 0, w3: 0 }
}

#[test]
fn parse_symbol_pair_splits_on_the_first_slash() {
    let (base, quote) = parse_symbol_pair("SOL/USDC").unwrap();
    assert_eq!(base, "SOL");
    assert_eq!(quote, "USDC");
}

#[test]
fn parse_symbol_pair_ignores_extra_segments() {
    let (base, quote) = parse_symbol_pair("A/B/C").unwrap();
    assert_eq!(base, "A");
    assert_eq!(quote, "B");
}

#[test]
fn parse_symbol_pair_allows_empty_components() {
    let (base, quote) = parse_symbol_pair("/").unwrap();
    assert_eq!(base, "");
    assert_eq!(quote, "");
}

#[test]
fn parse_symbol_pair_without_slash_fails() {
    assert!(parse_symbol_pair("SOLUSDC").is_none());
    assert!(parse_symbol_pair("").is_none());
}

#[test]
fn summary_quantities() {
    let s = OrderSummary {
        posted_order_id: Some(1),
        total_base_qty: 100,
        total_quote_qty: 100,
        total_base_qty_posted: 40,
    };
    assert_eq!(s.base_filled(), 60);
    assert_eq!(s.quote_posted(1u64 << 32), 40);
    assert_eq!(s.quote_filled(1u64 << 32), 60);
    // A saturating posted quote when the price is extreme.
    let tiny = OrderSummary {
        posted_order_id: None,
        total_base_qty: 0,
        total_quote_qty: 0,
        total_base_qty_posted: u64::MAX,
    };
    assert_eq!(tiny.quote_posted(u64::MAX), u64::MAX);
}

#[test]
fn initialize_orderbook_requires_the_airspace_authority() {
    let mut manager = BondManager {
        key: key(1),
        airspace: key(2),
        orderbook_market_state: key(0),
        event_queue: key(0),
        bids: key(0),
        asks: key(0),
        orderbook_paused: false,
        duration: 60,
        nonce: 0,
    };
    let r = initialize_orderbook(
        &mut manager,
        key(10),
        key(11),
        key(12),
        key(13),
        key(55),
        key(56),
        InitializeOrderbookParams { min_base_order_size: 5 },
    );
    assert_eq!(r.unwrap_err(), BondsError::WrongAirspaceAuthorization);
    assert_eq!(manager.event_queue, key(0));

    let create = initialize_orderbook(
        &mut manager,
        key(10),
        key(11),
        key(12),
        key(13),
        key(56),
        key(56),
        InitializeOrderbookParams { min_base_order_size: 5 },
    )
    .unwrap();
    assert_eq!(create.min_base_order_size, 5);
    assert_eq!(create.tick_size, TICK_SIZE);
    assert_eq!(manager.orderbook_market_state, key(10));
    assert_eq!(manager.event_queue, key(11));
    assert_eq!(manager.bids, key(12));
    assert_eq!(manager.asks, key(13));
}

#[test]
fn register_adapter_stamps_metadata_and_sizes_the_ring() {
    let (metadata, ring) = register_adapter(
        RegisterAdapterParams { num_events: 4 },
        key(1),
        key(2),
        key(3),
    );
    assert_eq!(metadata.owner, key(1));
    assert_eq!(metadata.manager, key(2));
    assert_eq!(ring.capacity, 4);
    assert!(ring.is_adapter);
    assert_eq!(ring.header.count, 0);
    // The account space covers the ring, the metadata, the ring header and
    // both discriminators.
    assert_eq!(EventAdapterMetadata::space(4), 4 * QUEUE_SLOT_LEN + 96 + 16 + 16);
}

#[test]
fn lender_borrower_sorts_by_taker_side() {
    // A bidding taker lent; an asking taker borrowed.
    assert_eq!(bond_orderbook::events::lender_borrower(0, "maker", "taker"), ("taker", "maker"));
    assert_eq!(bond_orderbook::events::lender_borrower(1, "maker", "taker"), ("maker", "taker"));
}

#[test]
fn buffer_length_formulas() {
    assert_eq!(event_queue_len(0), 24);
    assert_eq!(event_queue_len(3), 3 * QUEUE_SLOT_LEN + 24);
    // One resting order: a leaf, its callback record, an inner node, plus
    // the fixed header, spare leaf and callback, and the discriminator.
    assert_eq!(orderbook_slab_len(1), (32 + 167 + 32) + 65 + 32 + 167 + 8);
}
