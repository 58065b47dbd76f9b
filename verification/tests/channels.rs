use ord_stream::channel::{EventChannel, Received, CHANNEL_CAPACITY};
use ord_stream::event::Event;
use ord_stream::ids::{BlockHash, RuneId, Txid};

fn event(n: u32) -> Event {
    Event::RuneEtched {
        block_hash: BlockHash { bytes: [0; 32] },
        block_height: n,
        rune_id: RuneId { block: n as u64, tx: 0 },
        txid: Txid { bytes: [1; 32] },
    }
}

#[test]
fn capacity_is_128() {
    assert_eq!(CHANNEL_CAPACITY, 128);
}

#[test]
fn new_channel_is_open_and_empty() {
    let mut channel = EventChannel::new();
    assert_eq!(channel.len(), 0);
    assert!(!channel.is_closed());
    assert!(!channel.is_full());
    assert_eq!(channel.try_receive(), Received::Empty);
}

#[test]
fn events_leave_in_the_order_they_came() {
    let mut channel = EventChannel::new();
    for n in 0..10 {
        assert_eq!(channel.try_send(event(n)), Ok(()));
    }
    assert_eq!(channel.len(), 10);
    for n in 0..10 {
        assert_eq!(channel.try_receive(), Received::Event(event(n)));
    }
    assert_eq!(channel.try_receive(), Received::Empty);
}

#[test]
fn full_channel_hands_the_event_back_until_one_is_received() {
    let mut channel = EventChannel::new();
    for n in 0..128 {
        assert_eq!(channel.try_send(event(n)), Ok(()));
    }
    assert!(channel.is_full());
    assert_eq!(channel.len(), 128);
    assert_eq!(channel.try_send(event(128)), Err(event(128)));
    assert_eq!(channel.try_send(event(128)), Err(event(128)));
    assert_eq!(channel.len(), 128);
    assert_eq!(channel.try_receive(), Received::Event(event(0)));
    assert!(!channel.is_full());
    assert_eq!(channel.try_send(event(128)), Ok(()));
    assert!(channel.is_full());
    for n in 1..129 {
        assert_eq!(channel.try_receive(), Received::Event(event(n)));
    }
    assert_eq!(channel.try_receive(), Received::Empty);
}

#[test]
fn closed_channel_drains_then_ends() {
    let mut channel = EventChannel::new();
    for n in 0..5 {
        assert_eq!(channel.try_send(event(n)), Ok(()));
    }
    channel.close();
    assert!(channel.is_closed());
    assert_eq!(channel.len(), 5);
    for n in 0..5 {
        assert_eq!(channel.try_receive(), Received::Event(event(n)));
    }
    assert_eq!(channel.try_receive(), Received::EndOfStream);
    assert_eq!(channel.try_receive(), Received::EndOfStream);
}

#[test]
fn closing_an_empty_channel_ends_the_stream() {
    let mut channel = EventChannel::new();
    channel.close();
    assert_eq!(channel.try_receive(), Received::EndOfStream);
}
