use bond_orderbook::adapter::deliver_notice;
use bond_orderbook::callback::{CallbackInfo, AUTO_STAKE, MARGIN, NEW_DEBT};
use bond_orderbook::consume::{handler, ProvidedAccount};
use bond_orderbook::events::{FillEvent, OutEvent};
use bond_orderbook::keys::AccountKey;
use bond_orderbook::market::{BondManager, OrderbookMut};
use bond_orderbook::orders::{OrderParams, OrderSummary};
use bond_orderbook::queue::EventQueue;
use bond_orderbook::settle::SettlementLedger;
use bond_orderbook::{BondsError, Side};

fn key(n: u64) -> AccountKey {
    AccountKey { w0: n, w1: 0, w2: 0, w3: 0 }
}

fn program_id() -> AccountKey {
    key(9999)
}

fn market(tenor: i64) -> OrderbookMut {
    OrderbookMut {
        manager: BondManager {
            key: key(1000),
            airspace: key(1001),
            orderbook_market_state: key(1002),
            event_queue: key(1003),
            bids: key(1004),
            asks: key(1005),
            orderbook_paused: false,
            duration: tenor,
            nonce: 0,
        },
        bids: Vec::new(),
        asks: Vec::new(),
        event_queue: EventQueue::new(key(1003), 8, false),
    }
}

fn ledger() -> SettlementLedger {
    SettlementLedger {
        underlying_token_vault: 0,
        token_accounts: Vec::new(),
        margin_users: Vec::new(),
        split_tickets: Vec::new(),
        obligations: Vec::new(),
    }
}

fn params(base: u64, quote: u64, auto_stake: bool) -> OrderParams {
    OrderParams {
        max_bond_ticket_qty: base,
        max_underlying_token_qty: quote,
        limit_price: 1u64 << 32,
        match_limit: 100,
        post_only: false,
        post_allowed: true,
        auto_stake,
    }
}

fn posted(id: u128, base: u64) -> OrderSummary {
    OrderSummary {
        posted_order_id: Some(id),
        total_base_qty: base,
        total_quote_qty: base,
        total_base_qty_posted: base,
    }
}

fn filled(base: u64, quote: u64) -> OrderSummary {
    OrderSummary {
        posted_order_id: None,
        total_base_qty: base,
        total_quote_qty: quote,
        total_base_qty_posted: 0,
    }
}

fn plain(k: AccountKey) -> ProvidedAccount {
    ProvidedAccount { key: k, adapter_ok: false }
}

// Clean auto-stake fill: an ask rests, a bid with auto-stake matches it;
// one crank with one seed stakes the lender's tickets into a split ticket.
#[test]
fn clean_auto_stake_fill() {
    let mut m = market(3600);
    let mut l = ledger();
    let borrower = key(21);
    let lender = key(22);
    let ask_id: u128 = (1u128 << 127) | ((1u128 << 32) << 64);
    let (borrower_ci, _) = m
        .place_order(
            borrower,
            Side::Ask,
            params(100, 100, false),
            borrower,
            borrower,
            None,
            0,
            50,
            posted(ask_id, 100),
        )
        .unwrap();
    let (lender_ci, _) = m
        .place_order(
            lender,
            Side::Bid,
            params(100, 100, true),
            lender,
            lender,
            None,
            0,
            60,
            filled(100, 100),
        )
        .unwrap();
    assert_eq!(lender_ci.flags, AUTO_STAKE);
    // The matcher's fill carries in its maker slot the order whose flags
    // drive settlement; here that is the auto-stake lender.
    let fill = FillEvent {
        taker_side: 1,
        quote_size: 100,
        base_size: 100,
        maker_order_id: ask_id,
    };
    m.event_queue.push_event(&fill, Some(&lender_ci), Some(&borrower_ci)).unwrap();
    assert_eq!(m.event_queue.header.count, 1);

    let seeds = vec![vec![0x01u8]];
    let accounts = vec![plain(lender)];
    let outcome = handler(&mut m, &mut l, 1, &seeds, &accounts, program_id()).unwrap();
    assert_eq!(outcome.processed, 1);
    assert!(outcome.adapter_notices.is_empty());
    assert_eq!(m.event_queue.header.count, 0);
    assert_eq!(l.split_tickets.len(), 1);
    let stored = &l.split_tickets[0];
    assert_eq!(stored.ticket.principal, 100);
    assert_eq!(stored.ticket.interest, 0);
    assert_eq!(stored.ticket.owner, lender);
    assert_eq!(stored.ticket.order_tag, lender_ci.order_tag);
    // The fill timestamp is the taker's submit time; maturation adds the tenor.
    assert_eq!(stored.ticket.struck_timestamp, 50);
    assert_eq!(stored.ticket.maturation_timestamp, 50 + 3600);
    assert!(stored.address.is_some());
    assert!(l.obligations.is_empty());
}

// New-debt fill: a margin ask that borrows; the crank opens an obligation
// and credits entitled tokens; the vault is untouched.
#[test]
fn new_debt_fill() {
    let mut m = market(3600);
    let mut l = ledger();
    let lender = key(31);
    let borrower = key(32);
    let bid_id: u128 = (1u128 << 32) << 64;
    let (lender_ci, _) = m
        .place_order(
            lender,
            Side::Bid,
            params(50, 50, false),
            lender,
            lender,
            None,
            0,
            10,
            posted(bid_id, 50),
        )
        .unwrap();
    let (borrower_ci, _) = m
        .place_order(
            borrower,
            Side::Ask,
            params(50, 50, false),
            borrower,
            borrower,
            None,
            MARGIN | NEW_DEBT,
            20,
            filled(50, 50),
        )
        .unwrap();
    let fill = FillEvent {
        taker_side: 0,
        quote_size: 50,
        base_size: 50,
        maker_order_id: bid_id,
    };
    m.event_queue.push_event(&fill, Some(&borrower_ci), Some(&lender_ci)).unwrap();

    let seeds = vec![vec![0x02u8]];
    let accounts = vec![plain(borrower)];
    let outcome = handler(&mut m, &mut l, 1, &seeds, &accounts, program_id()).unwrap();
    assert_eq!(outcome.processed, 1);
    assert_eq!(l.obligations.len(), 1);
    let stored = &l.obligations[0];
    assert_eq!(stored.obligation.balance, 50);
    assert_eq!(stored.obligation.sequence_number, 0);
    assert_eq!(stored.obligation.borrower_account, borrower);
    assert_eq!(stored.obligation.maturation_timestamp, 10 + 3600);
    assert!(stored.address.is_some());
    assert_eq!(l.margin_users.len(), 1);
    assert_eq!(l.margin_users[0].key, borrower);
    assert_eq!(l.margin_users[0].assets.entitled_tokens, 50);
    assert_eq!(l.margin_users[0].debt.pending, 50);
    // Debt was issued, not drawn: the vault is unchanged.
    assert_eq!(l.underlying_token_vault, 0);
    assert!(l.split_tickets.is_empty());
}

// Cancel with refund: the out event produced by the cancel refunds the
// resting bid's quote from the vault at consume time.
#[test]
fn cancel_with_refund() {
    let mut m = market(3600);
    let mut l = ledger();
    l.underlying_token_vault = 500;
    let user = key(41);
    let refund_account = key(42);
    let bid_id: u128 = (1u128 << 32) << 64;
    m.place_order(
        user,
        Side::Bid,
        params(200, 200, false),
        user,
        refund_account,
        None,
        0,
        5,
        posted(bid_id, 200),
    )
    .unwrap();
    m.cancel_order(bid_id, user).unwrap();
    assert_eq!(m.event_queue.header.count, 1);

    let seeds: Vec<Vec<u8>> = Vec::new();
    let accounts = vec![plain(refund_account)];
    let outcome = handler(&mut m, &mut l, 1, &seeds, &accounts, program_id()).unwrap();
    assert_eq!(outcome.processed, 1);
    assert_eq!(m.event_queue.header.count, 0);
    assert_eq!(l.underlying_token_vault, 300);
    assert_eq!(l.token_accounts.len(), 1);
    assert_eq!(l.token_accounts[0].key, refund_account);
    assert_eq!(l.token_accounts[0].underlying, 200);
    // The queue is drained; the next crank finds no events.
    let again = handler(&mut m, &mut l, 1, &seeds, &accounts, program_id());
    assert_eq!(again.unwrap_err(), BondsError::NoEvents);
}

// Empty crank: with an empty queue, consuming fails with NoEvents.
#[test]
fn empty_crank() {
    let mut m = market(3600);
    let mut l = ledger();
    let seeds: Vec<Vec<u8>> = Vec::new();
    let accounts: Vec<ProvidedAccount> = Vec::new();
    let r = handler(&mut m, &mut l, 10, &seeds, &accounts, program_id());
    assert_eq!(r.unwrap_err(), BondsError::NoEvents);
}

// Asking for zero events on a non-empty queue also fails with NoEvents.
#[test]
fn zero_request_on_non_empty_queue() {
    let mut m = market(3600);
    let mut l = ledger();
    let out = OutEvent { side: 1, order_id: 7, base_size: 3 };
    let info = CallbackInfo {
        order_tag: bond_orderbook::tag::OrderTag { t0: 0, t1: 0 },
        owner: key(5),
        fill_account: key(5),
        out_account: key(5),
        adapter_account_key: key(0),
        order_submitted: 0,
        flags: 0,
    };
    m.event_queue.push_event(&out, Some(&info), None).unwrap();
    let seeds: Vec<Vec<u8>> = Vec::new();
    let accounts = vec![plain(key(5))];
    let r = handler(&mut m, &mut l, 0, &seeds, &accounts, program_id());
    assert_eq!(r.unwrap_err(), BondsError::NoEvents);
    assert_eq!(m.event_queue.header.count, 1);
}

// Seed exhaustion: two auto-stake fills but one seed; everything rolls back.
#[test]
fn seed_exhaustion_rolls_back() {
    let mut m = market(3600);
    let mut l = ledger();
    let lender = key(51);
    let maker_ci = CallbackInfo {
        order_tag: bond_orderbook::tag::OrderTag { t0: 9, t1: 9 },
        owner: lender,
        fill_account: lender,
        out_account: lender,
        adapter_account_key: key(0),
        order_submitted: 30,
        flags: AUTO_STAKE,
    };
    let taker_ci = CallbackInfo {
        order_tag: bond_orderbook::tag::OrderTag { t0: 8, t1: 8 },
        owner: key(52),
        fill_account: key(52),
        out_account: key(52),
        adapter_account_key: key(0),
        order_submitted: 31,
        flags: 0,
    };
    let fill = FillEvent { taker_side: 1, quote_size: 10, base_size: 10, maker_order_id: 1 };
    m.event_queue.push_event(&fill, Some(&maker_ci), Some(&taker_ci)).unwrap();
    m.event_queue.push_event(&fill, Some(&maker_ci), Some(&taker_ci)).unwrap();

    let seeds = vec![vec![0x01u8]];
    let accounts = vec![plain(lender), plain(lender)];
    let r = handler(&mut m, &mut l, 2, &seeds, &accounts, program_id());
    assert_eq!(r.unwrap_err(), BondsError::InsufficientSeeds);
    // All effects rolled back: the queue still holds both events and the
    // ledger is untouched.
    assert_eq!(m.event_queue.header.count, 2);
    assert!(l.split_tickets.is_empty());
    assert!(l.token_accounts.is_empty());
}

// A supplied account that does not match the event's metadata is fatal.
#[test]
fn wrong_user_account_on_consume() {
    let mut m = market(3600);
    let mut l = ledger();
    let out = OutEvent { side: 1, order_id: 7, base_size: 3 };
    let info = CallbackInfo {
        order_tag: bond_orderbook::tag::OrderTag { t0: 0, t1: 0 },
        owner: key(5),
        fill_account: key(5),
        out_account: key(5),
        adapter_account_key: key(0),
        order_submitted: 0,
        flags: 0,
    };
    m.event_queue.push_event(&out, Some(&info), None).unwrap();
    let seeds: Vec<Vec<u8>> = Vec::new();
    let accounts = vec![plain(key(6))];
    let r = handler(&mut m, &mut l, 1, &seeds, &accounts, program_id());
    assert_eq!(r.unwrap_err(), BondsError::WrongUserAccount);
    assert_eq!(m.event_queue.header.count, 1);
}

// A usable adapter under the wrong key is fatal; the crank passed the
// wrong account.
#[test]
fn wrong_adapter_on_consume() {
    let mut m = market(3600);
    let mut l = ledger();
    let user = key(61);
    let out = OutEvent { side: 1, order_id: 7, base_size: 3 };
    let info = CallbackInfo {
        order_tag: bond_orderbook::tag::OrderTag { t0: 0, t1: 0 },
        owner: user,
        fill_account: user,
        out_account: user,
        adapter_account_key: key(70),
        order_submitted: 0,
        flags: 0,
    };
    m.event_queue.push_event(&out, Some(&info), None).unwrap();
    let seeds: Vec<Vec<u8>> = Vec::new();
    let accounts = vec![plain(user), ProvidedAccount { key: key(71), adapter_ok: true }];
    let r = handler(&mut m, &mut l, 1, &seeds, &accounts, program_id());
    assert_eq!(r.unwrap_err(), BondsError::WrongAdapter);
}

// An adapter that fails to deserialize is skipped, and settlement
// proceeds; the notice list stays empty.
#[test]
fn broken_adapter_is_skipped() {
    let mut m = market(3600);
    let mut l = ledger();
    let user = key(62);
    let out = OutEvent { side: 1, order_id: 7, base_size: 3 };
    let info = CallbackInfo {
        order_tag: bond_orderbook::tag::OrderTag { t0: 0, t1: 0 },
        owner: user,
        fill_account: user,
        out_account: user,
        adapter_account_key: key(70),
        order_submitted: 0,
        flags: 0,
    };
    m.event_queue.push_event(&out, Some(&info), None).unwrap();
    let seeds: Vec<Vec<u8>> = Vec::new();
    let accounts = vec![plain(user), ProvidedAccount { key: key(70), adapter_ok: false }];
    let outcome = handler(&mut m, &mut l, 1, &seeds, &accounts, program_id()).unwrap();
    assert_eq!(outcome.processed, 1);
    assert!(outcome.adapter_notices.is_empty());
    // The ask-side out without new debt mints the base back as tickets.
    assert_eq!(l.token_accounts[0].tickets, 3);
}

// A working adapter produces a notice, and delivery pushes the event into
// the user-owned ring.
#[test]
fn adapter_notice_is_delivered() {
    let mut m = market(3600);
    let mut l = ledger();
    let user = key(63);
    let adapter_key = key(70);
    let out = OutEvent { side: 1, order_id: 7, base_size: 3 };
    let info = CallbackInfo {
        order_tag: bond_orderbook::tag::OrderTag { t0: 0, t1: 0 },
        owner: user,
        fill_account: user,
        out_account: user,
        adapter_account_key: adapter_key,
        order_submitted: 0,
        flags: 0,
    };
    m.event_queue.push_event(&out, Some(&info), None).unwrap();
    let seeds: Vec<Vec<u8>> = Vec::new();
    let accounts = vec![plain(user), ProvidedAccount { key: adapter_key, adapter_ok: true }];
    let outcome = handler(&mut m, &mut l, 1, &seeds, &accounts, program_id()).unwrap();
    assert_eq!(outcome.adapter_notices.len(), 1);
    let notice = &outcome.adapter_notices[0];
    assert_eq!(notice.adapter, adapter_key);

    let mut ring = EventQueue::new(adapter_key, 4, true);
    assert!(deliver_notice(&mut ring, notice));
    assert_eq!(ring.header.count, 1);

    // A full ring swallows the delivery.
    let mut tiny = EventQueue::new(adapter_key, 0, true);
    assert!(!deliver_notice(&mut tiny, notice));
}

// An out whose order id encodes an enormous price overflows the quote
// reconstruction.
#[test]
fn out_with_overflowing_price_fails() {
    let mut m = market(3600);
    let mut l = ledger();
    let user = key(64);
    let out = OutEvent {
        side: 0,
        order_id: (u64::MAX as u128) << 64,
        base_size: u64::MAX,
    };
    let info = CallbackInfo {
        order_tag: bond_orderbook::tag::OrderTag { t0: 0, t1: 0 },
        owner: user,
        fill_account: user,
        out_account: user,
        adapter_account_key: key(0),
        order_submitted: 0,
        flags: 0,
    };
    m.event_queue.push_event(&out, Some(&info), None).unwrap();
    let seeds: Vec<Vec<u8>> = Vec::new();
    let accounts = vec![plain(user)];
    let r = handler(&mut m, &mut l, 1, &seeds, &accounts, program_id());
    assert_eq!(r.unwrap_err(), BondsError::ArithmeticOverflow);
}

// An event whose side byte is garbage is refused as an invalid event.
#[test]
fn garbage_side_is_invalid() {
    let mut m = market(3600);
    let mut l = ledger();
    let user = key(65);
    let fill = FillEvent { taker_side: 7, quote_size: 1, base_size: 1, maker_order_id: 1 };
    let info = CallbackInfo {
        order_tag: bond_orderbook::tag::OrderTag { t0: 0, t1: 0 },
        owner: user,
        fill_account: user,
        out_account: user,
        adapter_account_key: key(0),
        order_submitted: 0,
        flags: 0,
    };
    m.event_queue.push_event(&fill, Some(&info), Some(&info)).unwrap();
    let seeds: Vec<Vec<u8>> = Vec::new();
    let accounts = vec![plain(user)];
    let r = handler(&mut m, &mut l, 1, &seeds, &accounts, program_id());
    assert_eq!(r.unwrap_err(), BondsError::InvalidEvent);
}

// An ask-side out under new debt shrinks the user's pending debt.
#[test]
fn out_on_new_debt_reduces_pending() {
    let mut m = market(3600);
    let mut l = ledger();
    let user = key(66);
    l.margin_users.push(bond_orderbook::settle::MarginUser {
        key: user,
        assets: bond_orderbook::settle::Assets { entitled_tokens: 0, entitled_tickets: 0 },
        debt: bond_orderbook::settle::Debt { next_new_obligation_seqno: 1, pending: 10 },
    });
    let out = OutEvent { side: 1, order_id: 7, base_size: 4 };
    let info = CallbackInfo {
        order_tag: bond_orderbook::tag::OrderTag { t0: 0, t1: 0 },
        owner: user,
        fill_account: user,
        out_account: user,
        adapter_account_key: key(0),
        order_submitted: 0,
        flags: NEW_DEBT,
    };
    m.event_queue.push_event(&out, Some(&info), None).unwrap();
    let seeds: Vec<Vec<u8>> = Vec::new();
    let accounts = vec![plain(user)];
    handler(&mut m, &mut l, 1, &seeds, &accounts, program_id()).unwrap();
    assert_eq!(l.margin_users[0].debt.pending, 6);
}

// A margin maker lending without auto-stake is credited entitled tickets.
#[test]
fn margin_lender_gets_entitled_tickets() {
    let mut m = market(3600);
    let mut l = ledger();
    let lender = key(67);
    let maker_ci = CallbackInfo {
        order_tag: bond_orderbook::tag::OrderTag { t0: 1, t1: 1 },
        owner: lender,
        fill_account: lender,
        out_account: lender,
        adapter_account_key: key(0),
        order_submitted: 40,
        flags: MARGIN,
    };
    let taker_ci = CallbackInfo {
        order_tag: bond_orderbook::tag::OrderTag { t0: 2, t1: 2 },
        owner: key(68),
        fill_account: key(68),
        out_account: key(68),
        adapter_account_key: key(0),
        order_submitted: 41,
        flags: 0,
    };
    let fill = FillEvent { taker_side: 1, quote_size: 30, base_size: 33, maker_order_id: 5 };
    m.event_queue.push_event(&fill, Some(&maker_ci), Some(&taker_ci)).unwrap();
    let seeds: Vec<Vec<u8>> = Vec::new();
    let accounts = vec![plain(lender)];
    handler(&mut m, &mut l, 1, &seeds, &accounts, program_id()).unwrap();
    assert_eq!(l.margin_users[0].assets.entitled_tickets, 33);
}
