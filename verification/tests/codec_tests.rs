use bond_orderbook::adapter::EventAdapterMetadata;
use bond_orderbook::callback::{CallbackInfo, AUTO_STAKE, CALLBACK_INFO_LEN, MARGIN};
use bond_orderbook::events::{parse_event, ser_event, FillEvent, OutEvent, QueueEvent};
use bond_orderbook::keys::AccountKey;
use bond_orderbook::queue::{event_queue_len, EventQueue, EventQueueHeader};
use bond_orderbook::settle::{Obligation, SplitTicket};
use bond_orderbook::tag::OrderTag;

fn key(n: u64) -> AccountKey {
    AccountKey { w0: n, w1: n * 3, w2: n * 5, w3: n * 7 }
}

fn sample_info() -> CallbackInfo {
    CallbackInfo {
        order_tag: OrderTag { t0: 11, t1: 22 },
        owner: key(1),
        fill_account: key(2),
        out_account: key(3),
        adapter_account_key: key(4),
        order_submitted: -12345,
        flags: AUTO_STAKE | MARGIN,
    }
}

#[test]
fn callback_info_round_trip() {
    let info = sample_info();
    let bytes = info.to_bytes();
    assert_eq!(bytes.len(), CALLBACK_INFO_LEN);
    let back = CallbackInfo::from_bytes(&bytes);
    assert_eq!(back, info);
}

#[test]
fn callback_info_layout_offsets() {
    let info = sample_info();
    let bytes = info.to_bytes();
    // Tag at 0..16, owner at 16..48, flags byte at 152, reserved zeroes after.
    assert_eq!(&bytes[0..16], info.order_tag.bytes().as_slice());
    assert_eq!(&bytes[16..48], info.owner.to_bytes().as_slice());
    assert_eq!(bytes[152], AUTO_STAKE | MARGIN);
    assert!(bytes[153..167].iter().all(|b| *b == 0));
}

#[test]
fn header_round_trip() {
    let h = EventQueueHeader { head: 5, count: 9 };
    let bytes = h.to_bytes();
    assert_eq!(bytes.len(), 16);
    assert_eq!(EventQueueHeader::from_bytes(&bytes), h);
}

#[test]
fn split_ticket_round_trip() {
    let t = SplitTicket {
        owner: key(8),
        bond_manager: key(9),
        order_tag: OrderTag { t0: 1, t1: 2 },
        maturation_timestamp: 1_000_000,
        struck_timestamp: -5,
        principal: 100,
        interest: 7,
    };
    let bytes = t.to_bytes();
    assert_eq!(bytes.len(), 112);
    assert_eq!(SplitTicket::from_bytes(&bytes), t);
}

#[test]
fn obligation_round_trip() {
    let o = Obligation {
        sequence_number: 3,
        borrower_account: key(12),
        bond_manager: key(13),
        order_tag: OrderTag { t0: 7, t1: 8 },
        maturation_timestamp: 99,
        balance: 50,
        flags: 0,
    };
    let bytes = o.to_bytes();
    assert_eq!(bytes.len(), 112);
    assert_eq!(Obligation::from_bytes(&bytes), o);
}

#[test]
fn adapter_metadata_round_trip() {
    let m = EventAdapterMetadata { owner: key(1), manager: key(2), orderbook_user: key(3) };
    let bytes = m.to_bytes();
    assert_eq!(bytes.len(), 96);
    assert_eq!(EventAdapterMetadata::from_bytes(&bytes), m);
}

#[test]
fn event_slot_round_trip() {
    let fill = QueueEvent::Fill(FillEvent {
        taker_side: 1,
        quote_size: 100,
        base_size: 200,
        maker_order_id: 123456789,
    });
    let out = QueueEvent::Out(OutEvent { side: 0, order_id: 1u128 << 96, base_size: 42 });
    for ev in [fill, out] {
        let bytes = ser_event(&ev);
        assert_eq!(bytes.len(), 40);
        assert_eq!(parse_event(&bytes), ev);
    }
}

#[test]
fn queue_buffer_round_trip() {
    let program = key(77);
    let mut q = EventQueue::new(key(50), 4, false);
    let out = OutEvent { side: 0, order_id: 9u128 << 64, base_size: 11 };
    let info = sample_info();
    q.push_event(&out, Some(&info), None).unwrap();
    let bytes = q.to_bytes();
    assert_eq!(bytes.len(), event_queue_len(4));
    let back = EventQueue::deserialize_market(key(50), program, program, &bytes).unwrap();
    assert_eq!(back.capacity, 4);
    assert_eq!(back.header, q.header);
    assert_eq!(back.events, q.events);
    assert_eq!(back.callbacks, q.callbacks);
}

#[test]
fn deserialize_market_requires_program_ownership() {
    let q = EventQueue::new(key(1), 2, false);
    let bytes = q.to_bytes();
    let r = EventQueue::deserialize_market(key(1), key(5), key(6), &bytes);
    assert_eq!(r.unwrap_err(), bond_orderbook::BondsError::WrongEventQueue);
}

#[test]
fn deserialize_user_adapter_refuses_program_owned() {
    let q = EventQueue::new(key(1), 2, true);
    let bytes = q.to_bytes();
    let r = EventQueue::deserialize_user_adapter(key(1), key(6), key(6), &bytes);
    assert_eq!(r.unwrap_err(), bond_orderbook::BondsError::UserDoesNotOwnAdapter);
}

#[test]
fn deserialize_refuses_corrupt_positions() {
    let program = key(7);
    let q = EventQueue::new(key(1), 2, false);
    let mut bytes = q.to_bytes();
    // Overwrite the count with one past the capacity.
    let bad = EventQueueHeader { head: 0, count: 3 }.to_bytes();
    bytes[8..24].copy_from_slice(&bad);
    let r = EventQueue::deserialize_market(key(1), program, program, &bytes);
    assert_eq!(r.unwrap_err(), bond_orderbook::BondsError::InvalidEvent);
}

#[test]
fn deserialize_refuses_unknown_live_tag() {
    let program = key(7);
    let mut q = EventQueue::new(key(1), 2, false);
    let out = OutEvent { side: 0, order_id: 1, base_size: 1 };
    q.push_event(&out, None, None).unwrap();
    let mut bytes = q.to_bytes();
    // Corrupt the live slot's tag byte (slot 0 sits right after the header).
    bytes[24] = 9;
    let r = EventQueue::deserialize_market(key(1), program, program, &bytes);
    assert_eq!(r.unwrap_err(), bond_orderbook::BondsError::InvalidEvent);
}

#[test]
fn capacity_follows_the_length_formula() {
    let program = key(7);
    for capacity in [0usize, 1, 5] {
        let q = EventQueue::new(key(2), capacity, false);
        let bytes = q.to_bytes();
        assert_eq!(bytes.len(), event_queue_len(capacity));
        let back = EventQueue::deserialize_market(key(2), program, program, &bytes).unwrap();
        assert_eq!(back.capacity, capacity);
    }
}
