use futures::channel::mpsc;

use trollbox::history::HistoryBuffer;
use trollbox::hub::{BroadcastHub, Event};
use trollbox::msg::{Message, SendMessageError, Timestamp};
use trollbox::subscription::open_subscription;
use trollbox::ui;
use trollbox::worker::{SessionEvent, SessionOutput, Worker};

fn sample(id: u128, alias: &str, text: &str) -> Message {
    Message {
        id,
        alias: alias.to_string(),
        text: text.to_string(),
        sent_at: Timestamp { secs: 1, nanos: 2 },
    }
}

#[test]
fn history_starts_empty() {
    let b = HistoryBuffer::new();
    assert_eq!(b.len(), 0);
    assert!(b.snapshot().is_empty());
}

#[test]
fn history_keeps_arrival_order() {
    let mut b = HistoryBuffer::new();
    b.push(sample(1, "alice", "hi"));
    b.push(sample(2, "bob", "yo"));
    b.push(sample(3, "alice", "bye"));
    let snap = b.snapshot();
    assert_eq!(snap.len(), 3);
    assert_eq!(snap[0].text, "hi");
    assert_eq!(snap[1].text, "yo");
    assert_eq!(snap[2].text, "bye");
}

#[test]
fn history_capacity_and_eviction() {
    let mut b = HistoryBuffer::new();
    for i in 0..105u128 {
        b.push(sample(i, "alice", &format!("m{}", i)));
        assert!(b.len() <= 100);
    }
    let snap = b.snapshot();
    assert_eq!(snap.len(), 100);
    for (k, m) in snap.iter().enumerate() {
        assert_eq!(m.id, k as u128 + 5);
        assert_eq!(m.text, format!("m{}", k + 5));
    }
}

#[test]
fn validation_missing_alias() {
    let r = Message::try_new("".to_string(), "hi".to_string());
    assert_eq!(r.err().unwrap(), SendMessageError::MissingAlias);
}

#[test]
fn validation_alias_too_long() {
    let r = Message::try_new("a".repeat(33), "hi".to_string());
    assert_eq!(r.err().unwrap(), SendMessageError::AliasTooLong);
}

#[test]
fn validation_missing_message() {
    let r = Message::try_new("bob".to_string(), "".to_string());
    assert_eq!(r.err().unwrap(), SendMessageError::MissingMessage);
}

#[test]
fn validation_message_too_long() {
    let r = Message::try_new("bob".to_string(), "x".repeat(257));
    assert_eq!(r.err().unwrap(), SendMessageError::MessageTooLong);
}

#[test]
fn validation_checks_text_before_alias() {
    let r = Message::try_new("".to_string(), "".to_string());
    assert_eq!(r.err().unwrap(), SendMessageError::MissingMessage);
}

#[test]
fn validation_accepts_bounds() {
    assert!(Message::try_new("a".repeat(32), "x".repeat(256)).is_ok());
    let m = Message::try_new("bob".to_string(), "hi".to_string()).unwrap();
    assert_eq!(m.alias, "bob");
    assert_eq!(m.text, "hi");
    assert!(m.sent_at.nanos < 1_000_000_000);
    assert!(m.sent_at.secs > 0);
}

#[test]
fn accepted_messages_get_distinct_ids() {
    let a = Message::try_new("bob".to_string(), "one".to_string()).unwrap();
    let b = Message::try_new("bob".to_string(), "two".to_string()).unwrap();
    assert_ne!(a.id, b.id);
}

#[test]
fn fan_out_reaches_all_in_order() {
    let mut hub = BroadcastHub::new();
    let mut history = HistoryBuffer::new();
    let (tx1, mut rx1) = mpsc::channel::<Message>(128);
    let (tx2, mut rx2) = mpsc::channel::<Message>(128);
    hub.handle_event(&mut history, Event::Subscribe(1, tx1));
    hub.handle_event(&mut history, Event::Subscribe(2, tx2));
    assert_eq!(hub.subscriber_count(), 2);

    let o1 = hub.handle_event(&mut history, Event::Message(sample(10, "alice", "first")));
    let o2 = hub.handle_event(&mut history, Event::Message(sample(11, "bob", "second")));
    assert_eq!(o1, vec![true, true]);
    assert_eq!(o2, vec![true, true]);

    for rx in [&mut rx1, &mut rx2] {
        let a = rx.try_recv().unwrap();
        let b = rx.try_recv().unwrap();
        assert_eq!(a.text, "first");
        assert_eq!(b.text, "second");
        assert!(rx.try_recv().is_err());
    }
    let snap = history.snapshot();
    assert_eq!(snap.len(), 2);
    assert_eq!(snap[0].text, "first");
    assert_eq!(snap[1].text, "second");
}

#[test]
fn replay_in_order() {
    let mut history = HistoryBuffer::new();
    history.push(sample(1, "alice", "a"));
    history.push(sample(2, "bob", "b"));
    history.push(sample(3, "carol", "c"));

    let (mut tx, mut rx) = mpsc::channel::<Message>(128);
    let (_id, outcomes) = open_subscription(&history, &mut tx);
    assert_eq!(outcomes, vec![true, true, true]);

    assert_eq!(rx.try_recv().unwrap().text, "a");
    assert_eq!(rx.try_recv().unwrap().text, "b");
    assert_eq!(rx.try_recv().unwrap().text, "c");
    assert!(rx.try_recv().is_err());
}

#[test]
fn fresh_subscriptions_get_distinct_ids() {
    let history = HistoryBuffer::new();
    let (mut tx, _rx) = mpsc::channel::<Message>(128);
    let (id1, _) = open_subscription(&history, &mut tx);
    let (id2, _) = open_subscription(&history, &mut tx);
    assert_ne!(id1, id2);
}

#[test]
fn unsubscribe_stops_delivery() {
    let mut hub = BroadcastHub::new();
    let mut history = HistoryBuffer::new();
    let (tx1, mut rx1) = mpsc::channel::<Message>(128);
    let (tx2, mut rx2) = mpsc::channel::<Message>(128);
    hub.handle_event(&mut history, Event::Subscribe(1, tx1));
    hub.handle_event(&mut history, Event::Subscribe(2, tx2));

    hub.handle_event(&mut history, Event::Unsubscribe(1));
    assert_eq!(hub.subscriber_count(), 1);

    let o = hub.handle_event(&mut history, Event::Message(sample(10, "alice", "later")));
    assert_eq!(o, vec![true]);

    // The removed subscriber's channel is gone: no message, only the end of
    // the stream.
    assert!(rx1.try_recv().is_err());
    assert_eq!(rx2.try_recv().unwrap().text, "later");
}

#[test]
fn unsubscribing_absent_id_is_noop() {
    let mut hub = BroadcastHub::new();
    let mut history = HistoryBuffer::new();
    let (tx1, mut _rx1) = mpsc::channel::<Message>(128);
    hub.handle_event(&mut history, Event::Subscribe(1, tx1));
    hub.handle_event(&mut history, Event::Unsubscribe(42));
    assert_eq!(hub.subscriber_count(), 1);
}

#[test]
fn slow_subscriber_does_not_block_others() {
    let mut hub = BroadcastHub::new();
    let mut history = HistoryBuffer::new();
    // One guaranteed slot: the second delivery finds the channel full.
    let (slow_tx, mut slow_rx) = mpsc::channel::<Message>(0);
    let (fast_tx, mut fast_rx) = mpsc::channel::<Message>(128);
    hub.handle_event(&mut history, Event::Subscribe(1, slow_tx));
    hub.handle_event(&mut history, Event::Subscribe(2, fast_tx));

    let o1 = hub.handle_event(&mut history, Event::Message(sample(10, "alice", "first")));
    let o2 = hub.handle_event(&mut history, Event::Message(sample(11, "bob", "second")));
    assert_eq!(o1, vec![true, true]);
    assert_eq!(o2, vec![false, true]);

    // The slow subscriber missed the second message; nothing else changed.
    assert_eq!(slow_rx.try_recv().unwrap().text, "first");
    assert!(slow_rx.try_recv().is_err());
    assert_eq!(fast_rx.try_recv().unwrap().text, "first");
    assert_eq!(fast_rx.try_recv().unwrap().text, "second");
    assert_eq!(hub.subscriber_count(), 2);
    assert_eq!(history.len(), 2);
}

#[test]
fn subscribe_then_three_messages() {
    // Empty buffer, one subscriber, three submissions: the stream yields
    // exactly those three, in order, with no replay items.
    let history_shared = HistoryBuffer::new();
    let (mut tx, mut rx) = mpsc::channel::<Message>(128);
    let (id, outcomes) = open_subscription(&history_shared, &mut tx);
    assert!(outcomes.is_empty());

    let mut hub = BroadcastHub::new();
    let mut history = history_shared;
    hub.handle_event(&mut history, Event::Subscribe(id, tx));

    for (alias, text) in [("alice", "hi"), ("bob", "yo"), ("alice", "bye")] {
        let m = Message::try_new(alias.to_string(), text.to_string()).unwrap();
        let o = hub.handle_event(&mut history, Event::Message(m));
        assert_eq!(o, vec![true]);
    }

    let first = rx.try_recv().unwrap();
    let second = rx.try_recv().unwrap();
    let third = rx.try_recv().unwrap();
    assert_eq!((first.alias.as_str(), first.text.as_str()), ("alice", "hi"));
    assert_eq!((second.alias.as_str(), second.text.as_str()), ("bob", "yo"));
    assert_eq!((third.alias.as_str(), third.text.as_str()), ("alice", "bye"));
    assert!(rx.try_recv().is_err());
}

#[test]
fn worker_session_flow() {
    let mut w = Worker::new();
    // A first attempt starts at once.
    assert_eq!(w.reconnect_wait_ms(0), 0);

    assert!(matches!(w.on_event(SessionEvent::ConnectFailed), SessionOutput::Nothing));
    assert_eq!(w.reconnect_wait_ms(1000), 4000);
    assert_eq!(w.reconnect_wait_ms(5000), 0);
    assert_eq!(w.reconnect_wait_ms(9000), 0);

    assert!(matches!(w.on_event(SessionEvent::ConnectSucceeded), SessionOutput::ConnectionReady));
    let out = w.on_event(SessionEvent::StreamItem(sample(1, "alice", "hi")));
    match out {
        SessionOutput::Received(m) => assert_eq!(m.text, "hi"),
        _ => panic!("expected a received message"),
    }
    assert!(matches!(w.on_event(SessionEvent::StreamFailed), SessionOutput::ConnectionLost));
    // The loss counted as an attempt: the next try waits out the delay.
    assert_eq!(w.reconnect_wait_ms(0), 5000);
}

#[test]
fn ui_update_flow() {
    let mut s = ui::State::new();
    assert!(matches!(s, ui::State::Disconnected));

    // Typing and receiving while disconnected change nothing.
    assert!(matches!(
        s.update(ui::Message::InputChanged("hey".to_string())),
        ui::Action::Nothing
    ));
    assert!(matches!(s, ui::State::Disconnected));

    assert!(matches!(s.update(ui::Message::Connected), ui::Action::Nothing));
    assert!(matches!(
        s.update(ui::Message::InputChanged("hey".to_string())),
        ui::Action::Nothing
    ));
    match &s {
        ui::State::Connected { input_value, messages } => {
            assert_eq!(input_value, "hey");
            assert!(messages.is_empty());
        }
        _ => panic!("expected a connected state"),
    }

    // Submitting clears the field and asks for one send.
    match s.update(ui::Message::SendTrollBoxMessage("hey".to_string())) {
        ui::Action::Send(text) => assert_eq!(text, "hey"),
        _ => panic!("expected a send action"),
    }
    match &s {
        ui::State::Connected { input_value, .. } => assert_eq!(input_value, ""),
        _ => panic!("expected a connected state"),
    }

    assert!(matches!(
        s.update(ui::Message::TrollBoxMessageReceived(sample(1, "alice", "hi"))),
        ui::Action::Nothing
    ));
    match &s {
        ui::State::Connected { messages, .. } => {
            assert_eq!(messages.len(), 1);
            assert_eq!(messages[0].text, "hi");
        }
        _ => panic!("expected a connected state"),
    }

    assert!(matches!(s.update(ui::Message::Disconnected), ui::Action::Nothing));
    assert!(matches!(s, ui::State::Disconnected));
}
