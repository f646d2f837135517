use bond_orderbook::callback::CallbackInfo;
use bond_orderbook::events::{FillEvent, OrderbookEvent, OutEvent};
use bond_orderbook::keys::AccountKey;
use bond_orderbook::queue::EventQueue;
use bond_orderbook::tag::OrderTag;
use bond_orderbook::BondsError;

fn key(n: u64) -> AccountKey {
    AccountKey { w0: n, w1: 0, w2: 0, w3: 0 }
}

fn info(owner: u64) -> CallbackInfo {
    CallbackInfo {
        order_tag: OrderTag { t0: owner, t1: 0 },
        owner: key(owner),
        fill_account: key(owner),
        out_account: key(owner),
        adapter_account_key: key(0),
        order_submitted: 0,
        flags: 0,
    }
}

fn fill(n: u64) -> FillEvent {
    FillEvent { taker_side: 0, quote_size: n, base_size: n, maker_order_id: n as u128 }
}

#[test]
fn push_then_pop_counts() {
    // Pushing one event then popping k leaves count + 1 - min(k, count + 1).
    let mut q = EventQueue::new(key(1), 4, false);
    for n in 0..3u64 {
        q.push_event(&fill(n), Some(&info(n)), Some(&info(n + 100))).unwrap();
    }
    assert_eq!(q.header.count, 3);
    q.push_event(&fill(3), Some(&info(3)), Some(&info(103))).unwrap();
    assert_eq!(q.header.count, 4);
    q.pop_events(2).unwrap();
    assert_eq!(q.header.count, 2);
    assert_eq!(q.header.head, 2);
    // Popping more than remain drains without underflow.
    q.pop_events(10).unwrap();
    assert_eq!(q.header.count, 0);
}

#[test]
fn full_queue_refuses_push() {
    let mut q = EventQueue::new(key(1), 2, false);
    q.push_event(&fill(0), None, None).unwrap();
    q.push_event(&fill(1), None, None).unwrap();
    let r = q.push_event(&fill(2), None, None);
    assert_eq!(r.unwrap_err(), BondsError::EventQueueFull);
    assert_eq!(q.header.count, 2);
}

#[test]
fn zero_capacity_queue_refuses_push() {
    let mut q = EventQueue::new(key(1), 0, false);
    let r = q.push_event(&fill(0), None, None);
    assert_eq!(r.unwrap_err(), BondsError::EventQueueFull);
}

#[test]
fn iteration_yields_insertion_order() {
    let mut q = EventQueue::new(key(1), 3, false);
    // Wrap the ring: push two, pop two, push three.
    q.push_event(&fill(90), None, None).unwrap();
    q.push_event(&fill(91), None, None).unwrap();
    q.pop_events(2).unwrap();
    for n in 0..3u64 {
        q.push_event(&fill(n), Some(&info(n)), Some(&info(n + 100))).unwrap();
    }
    let mut it = q.iter();
    for n in 0..3u64 {
        match it.next().unwrap() {
            OrderbookEvent::Fill(f) => {
                assert_eq!(f.event, fill(n));
                assert_eq!(f.maker_info, info(n));
                assert_eq!(f.taker_info, info(n + 100));
            }
            OrderbookEvent::Out(_) => panic!("expected a fill"),
        }
    }
    assert!(it.next().is_none());
}

#[test]
fn out_events_materialize_with_their_info() {
    let mut q = EventQueue::new(key(1), 2, false);
    let out = OutEvent { side: 0, order_id: 7, base_size: 3 };
    q.push_event(&out, Some(&info(5)), None).unwrap();
    let mut it = q.iter();
    match it.next().unwrap() {
        OrderbookEvent::Out(o) => {
            assert_eq!(o.event, out);
            assert_eq!(o.info, info(5));
        }
        OrderbookEvent::Fill(_) => panic!("expected an out"),
    }
}

#[test]
fn unwrap_helpers_classify() {
    let mut q = EventQueue::new(key(1), 2, false);
    let out = OutEvent { side: 0, order_id: 7, base_size: 3 };
    q.push_event(&out, Some(&info(5)), None).unwrap();
    let ev = q.iter().next().unwrap();
    assert_eq!(ev.unwrap_fill().unwrap_err(), BondsError::InvalidEvent);
    assert!(ev.unwrap_out().is_ok());
}
