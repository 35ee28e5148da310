use shellcore::hub::{HubError, ReceiveOutcome, SyncHub};

fn receive_text(sub: &mut shellcore::hub::Subscription) -> Option<String> {
    match sub.try_receive() {
        ReceiveOutcome::Message(text) => Some(text),
        _ => None,
    }
}

#[test]
fn publish_before_start_has_no_effect() {
    let mut hub = SyncHub::new();
    hub.publish(String::from("early"));
    hub.start();
    let mut sub = hub.subscribe().unwrap();
    hub.publish(String::from("late"));
    assert_eq!(receive_text(&mut sub), Some(String::from("late")));
    assert!(matches!(sub.try_receive(), ReceiveOutcome::Empty));
}

#[test]
fn subscribe_before_start_fails() {
    let hub = SyncHub::new();
    let err = hub.subscribe().err().unwrap();
    assert_eq!(err, HubError::NotStarted);
}

#[test]
fn each_subscriber_gets_exactly_one_delivery() {
    let mut hub = SyncHub::new();
    hub.start();
    let mut subs = vec![
        hub.subscribe().unwrap(),
        hub.subscribe().unwrap(),
        hub.subscribe().unwrap(),
    ];
    hub.publish(String::from("m"));
    for sub in subs.iter_mut() {
        assert_eq!(receive_text(sub), Some(String::from("m")));
        assert!(matches!(sub.try_receive(), ReceiveOutcome::Empty));
    }
}

#[test]
fn messages_arrive_in_publish_order() {
    let mut hub = SyncHub::new();
    hub.start();
    let mut sub = hub.subscribe().unwrap();
    hub.publish(String::from("a"));
    hub.publish(String::from("b"));
    hub.publish(String::from("c"));
    assert_eq!(receive_text(&mut sub), Some(String::from("a")));
    assert_eq!(receive_text(&mut sub), Some(String::from("b")));
    assert_eq!(receive_text(&mut sub), Some(String::from("c")));
    assert!(matches!(sub.try_receive(), ReceiveOutcome::Empty));
}

#[test]
fn lagging_subscriber_misses_then_resumes() {
    let total: usize = 300;
    let mut hub = SyncHub::new();
    hub.start();
    let mut sub = hub.subscribe().unwrap();
    for i in 0..total {
        hub.publish(format!("m{}", i));
    }
    // The subscriber never read while more than the backlog capacity of
    // messages went by: the first read reports how many it missed.
    let missed = match sub.try_receive() {
        ReceiveOutcome::Lagged(n) => n as usize,
        other => panic!("expected a lag report, got {:?}", other),
    };
    assert!(missed > 0);
    // It then resumes with the oldest message still held and reads the
    // rest in order, ending with the newest.
    let mut received = Vec::new();
    loop {
        match sub.try_receive() {
            ReceiveOutcome::Message(text) => received.push(text),
            ReceiveOutcome::Empty => break,
            other => panic!("unexpected outcome: {:?}", other),
        }
    }
    assert_eq!(missed + received.len(), total);
    for (k, text) in received.iter().enumerate() {
        assert_eq!(text, &format!("m{}", missed + k));
    }
    assert_eq!(received.last().unwrap(), &format!("m{}", total - 1));
}

#[test]
fn restart_discards_first_channel_subscribers() {
    let mut hub = SyncHub::new();
    hub.start();
    let mut first = hub.subscribe().unwrap();
    hub.start();
    let mut second = hub.subscribe().unwrap();
    hub.publish(String::from("after"));
    assert_eq!(receive_text(&mut second), Some(String::from("after")));
    // The first channel was replaced and dropped: its subscriber observes
    // it closed and never sees the message.
    assert!(matches!(first.try_receive(), ReceiveOutcome::Closed));
}

#[test]
fn subscriber_only_sees_messages_published_after_subscribing() {
    let mut hub = SyncHub::new();
    hub.start();
    hub.publish(String::from("before"));
    let mut sub = hub.subscribe().unwrap();
    hub.publish(String::from("after"));
    assert_eq!(receive_text(&mut sub), Some(String::from("after")));
    assert!(matches!(sub.try_receive(), ReceiveOutcome::Empty));
}
