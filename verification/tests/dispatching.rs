use ord_stream::channel::EventChannel;
use ord_stream::dispatcher::{
    Action, Dispatcher, Message, Phase, Report, FLUSH_TIMEOUT_MILLIS, RETRY_DELAY_MILLIS,
};
use ord_stream::event::Event;
use ord_stream::ids::{BlockHash, RuneId, Txid};
use ord_stream::key::partition_key;
use ord_stream::payload::payload;

fn event(n: u32) -> Event {
    Event::RuneMinted {
        block_hash: BlockHash { bytes: [2; 32] },
        amount: 500,
        block_height: n,
        rune_id: RuneId { block: 1, tx: 1 },
        txid: Txid { bytes: [3; 32] },
    }
}

#[test]
fn delays_are_one_second_and_one_minute() {
    assert_eq!(RETRY_DELAY_MILLIS, 1000);
    assert_eq!(FLUSH_TIMEOUT_MILLIS, 60000);
}

#[test]
fn new_dispatcher_asks_for_an_event() {
    let dispatcher = Dispatcher::new();
    assert_eq!(dispatcher.phase(), Phase::Running);
    assert_eq!(dispatcher.next_action(), Action::Receive);
    assert!(dispatcher.message().is_none());
    assert!(!dispatcher.flush_failed());
}

#[test]
fn received_event_becomes_the_message_at_hand() {
    let mut dispatcher = Dispatcher::new();
    assert!(dispatcher.on_received(&event(840000)));
    assert_eq!(dispatcher.next_action(), Action::Enqueue);
    let message = dispatcher.message().unwrap();
    assert_eq!(message.key, partition_key(&event(840000)));
    assert_eq!(message.payload, payload(&event(840000)));
}

#[test]
fn refused_n_times_then_sent_once() {
    let n = 5;
    let mut dispatcher = Dispatcher::new();
    assert!(dispatcher.on_received(&event(1)));
    let key = dispatcher.message().unwrap().key.clone();
    let mut sent = 0;
    let mut retries = 0;
    let mut waited = 0u64;
    for _ in 0..n {
        assert_eq!(dispatcher.next_action(), Action::Enqueue);
        assert_eq!(dispatcher.on_enqueue_result(false), Report::Retrying);
        retries += 1;
        match dispatcher.next_action() {
            Action::Backoff { millis } => waited += millis,
            other => panic!("no backoff but {:?}", other),
        }
        assert_eq!(dispatcher.message().unwrap().key, key);
        dispatcher.on_waited();
    }
    assert_eq!(dispatcher.next_action(), Action::Enqueue);
    if dispatcher.on_enqueue_result(true) == Report::Sent {
        sent += 1;
    }
    assert_eq!(sent, 1);
    assert_eq!(retries, n);
    assert_eq!(waited, n as u64 * 1000);
    assert!(dispatcher.message().is_none());
    assert_eq!(dispatcher.next_action(), Action::Receive);
    assert_eq!(dispatcher.on_enqueue_result(true), Report::Ignored);
    assert_eq!(dispatcher.phase(), Phase::Running);
}

#[test]
fn event_is_not_taken_while_another_is_at_hand() {
    let mut dispatcher = Dispatcher::new();
    assert!(dispatcher.on_received(&event(1)));
    assert!(!dispatcher.on_received(&event(2)));
    assert_eq!(dispatcher.message().unwrap().key, partition_key(&event(1)));
    let mut channel = EventChannel::new();
    assert!(channel.try_send(event(3)).is_ok());
    assert!(!dispatcher.pull(&mut channel));
    assert_eq!(channel.len(), 1);
    assert_eq!(dispatcher.message().unwrap().key, partition_key(&event(1)));
}

#[test]
fn message_of_an_event_is_its_key_and_payload() {
    let message = Message::of(&event(840000));
    assert_eq!(message.key, partition_key(&event(840000)));
    assert_eq!(message.payload, payload(&event(840000)));
}

#[test]
fn outcome_of_an_offer_is_ignored_while_waiting() {
    let mut dispatcher = Dispatcher::new();
    assert!(dispatcher.on_received(&event(1)));
    assert_eq!(dispatcher.on_enqueue_result(false), Report::Retrying);
    assert_eq!(dispatcher.on_enqueue_result(true), Report::Ignored);
    assert!(dispatcher.message().is_some());
    dispatcher.on_waited();
    assert_eq!(dispatcher.on_enqueue_result(true), Report::Sent);
}

#[test]
fn end_of_stream_waits_for_the_message_at_hand() {
    let mut dispatcher = Dispatcher::new();
    assert!(dispatcher.on_received(&event(1)));
    dispatcher.on_closed();
    assert_eq!(dispatcher.phase(), Phase::Draining);
    dispatcher.on_end_of_stream();
    assert_eq!(dispatcher.phase(), Phase::Draining);
    assert_eq!(dispatcher.next_action(), Action::Enqueue);
    assert_eq!(dispatcher.on_enqueue_result(true), Report::Sent);
    dispatcher.on_end_of_stream();
    assert_eq!(dispatcher.phase(), Phase::Flushing);
    assert_eq!(dispatcher.next_action(), Action::Flush { timeout_millis: 60000 });
}

#[test]
fn closed_channel_with_k_events_is_drained_before_the_flush() {
    let k = 7;
    let mut channel = EventChannel::new();
    for n in 0..k {
        assert!(channel.try_send(event(n)).is_ok());
    }
    channel.close();
    let mut dispatcher = Dispatcher::new();
    let mut keys = Vec::new();
    let mut steps = 0;
    while dispatcher.phase() != Phase::Flushing {
        steps += 1;
        assert!(steps < 100);
        match dispatcher.next_action() {
            Action::Receive => {
                assert!(!dispatcher.pull(&mut channel));
            }
            Action::Enqueue => {
                let refuse = keys.len() % 2 == 0 && steps % 3 != 0;
                if refuse {
                    assert_eq!(dispatcher.on_enqueue_result(false), Report::Retrying);
                } else {
                    keys.push(dispatcher.message().unwrap().key.clone());
                    assert_eq!(dispatcher.on_enqueue_result(true), Report::Sent);
                }
            }
            Action::Backoff { millis } => {
                assert_eq!(millis, 1000);
                dispatcher.on_waited();
            }
            other => panic!("{:?} before the flush", other),
        }
        if dispatcher.phase() == Phase::Flushing {
            assert_eq!(keys.len(), k as usize);
        } else {
            assert_eq!(dispatcher.phase(), Phase::Draining);
        }
    }
    let expected: Vec<String> = (0..k).map(|n| partition_key(&event(n))).collect();
    assert_eq!(keys, expected);
    assert_eq!(channel.len(), 0);
}

#[test]
fn open_empty_channel_leaves_the_dispatcher_waiting() {
    let mut channel = EventChannel::new();
    let mut dispatcher = Dispatcher::new();
    assert!(dispatcher.pull(&mut channel));
    assert_eq!(dispatcher.phase(), Phase::Running);
    assert_eq!(dispatcher.next_action(), Action::Receive);
    assert!(channel.try_send(event(3)).is_ok());
    assert!(!dispatcher.pull(&mut channel));
    assert_eq!(dispatcher.phase(), Phase::Running);
    assert_eq!(dispatcher.message().unwrap().key, partition_key(&event(3)));
}

#[test]
fn two_timeouts_end_the_dispatcher_with_the_failure_on_record() {
    let mut dispatcher = Dispatcher::new();
    dispatcher.on_end_of_stream();
    assert_eq!(dispatcher.phase(), Phase::Flushing);
    assert_eq!(dispatcher.on_flush_result(false), Report::FlushAgain);
    assert_eq!(dispatcher.phase(), Phase::Flushing);
    assert_eq!(dispatcher.next_action(), Action::Flush { timeout_millis: 60000 });
    assert!(!dispatcher.flush_failed());
    assert_eq!(dispatcher.on_flush_result(false), Report::FlushFailed);
    assert_eq!(dispatcher.phase(), Phase::Terminated);
    assert_eq!(dispatcher.next_action(), Action::Stop);
    assert!(dispatcher.flush_failed());
    assert_eq!(dispatcher.on_flush_result(true), Report::Ignored);
    assert!(dispatcher.flush_failed());
}

#[test]
fn flush_in_time_ends_the_dispatcher() {
    let mut dispatcher = Dispatcher::new();
    dispatcher.on_end_of_stream();
    assert_eq!(dispatcher.on_flush_result(true), Report::Flushed);
    assert_eq!(dispatcher.phase(), Phase::Terminated);
    assert!(!dispatcher.flush_failed());
}

#[test]
fn flush_in_time_after_one_timeout_is_no_failure() {
    let mut dispatcher = Dispatcher::new();
    dispatcher.on_end_of_stream();
    assert_eq!(dispatcher.on_flush_result(false), Report::FlushAgain);
    assert_eq!(dispatcher.on_flush_result(true), Report::Flushed);
    assert_eq!(dispatcher.phase(), Phase::Terminated);
    assert!(!dispatcher.flush_failed());
}

#[test]
fn flush_result_is_ignored_while_running() {
    let mut dispatcher = Dispatcher::new();
    assert_eq!(dispatcher.on_flush_result(false), Report::Ignored);
    assert_eq!(dispatcher.on_flush_result(false), Report::Ignored);
    assert_eq!(dispatcher.phase(), Phase::Running);
    assert!(!dispatcher.flush_failed());
}
