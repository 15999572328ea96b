use portus_runtime::event_hub::{EventHub, EventObjectKind, RecvError};

#[test]
fn subscribers_receive_monotonic_bounded_events() {
    let mut hub = EventHub::new(2);
    let subscription = hub.subscribe();
    assert_eq!(hub.publish("runtime.ready".to_string(), None).delivered, 1);
    assert_eq!(
        hub.publish("runtime.degraded".to_string(), Some("safe".to_string())).delivered,
        1
    );
    let first = hub.try_recv(subscription).unwrap();
    let second = hub.try_recv(subscription).unwrap();
    assert!(second.sequence > first.sequence);
    assert_eq!(second.safe_summary.as_deref(), Some("safe"));
    assert_eq!(second.object_kind, EventObjectKind::Runtime);
}

#[test]
fn object_subscription_ignores_unrelated_events() {
    let mut hub = EventHub::new(2);
    let task_id = "0b2f9a57-4c1e-4d3e-9f61-2a8c1d7e5b10".to_string();
    let subscription = hub.subscribe_object(EventObjectKind::Task, task_id.clone());
    let _ = hub.publish("runtime.ready".to_string(), None);
    let outcome = hub.publish_task_event(
        task_id,
        4,
        "task.running".to_string(),
        Some("running".to_string()),
    );
    assert_eq!(outcome.delivered, 1);
    let received = hub.try_recv(subscription).unwrap();
    assert_eq!(received.object_sequence, Some(4));
    assert!(hub.try_recv(subscription).is_err());
}

#[test]
fn lagging_subscriber_tracks_missed_wakeups_without_blocking_publisher() {
    let mut hub = EventHub::new(1);
    let subscription = hub.subscribe();
    assert_eq!(hub.publish("one".to_string(), None).delivered, 1);
    let outcome = hub.publish("two".to_string(), None);
    assert_eq!(outcome.lagging, 1);
    assert_eq!(outcome.delivered, 0);
    assert_eq!(hub.take_missed(subscription), 1);
    assert_eq!(hub.take_missed(subscription), 0);
}

#[test]
fn disconnected_subscribers_are_removed() {
    let mut hub = EventHub::new(1);
    let subscription = hub.subscribe();
    hub.unsubscribe(subscription);
    let outcome = hub.publish("cleanup".to_string(), None);
    assert_eq!(outcome.disconnected, 1);
    assert_eq!(hub.subscriber_count(), 0);
}

#[test]
fn receiving_from_an_unknown_or_drained_subscription() {
    let mut hub = EventHub::with_default_capacity();
    let subscription = hub.subscribe();
    assert_eq!(hub.try_recv(subscription).unwrap_err(), RecvError::Empty);
    assert_eq!(hub.try_recv(subscription + 100).unwrap_err(), RecvError::Disconnected);
    assert_eq!(hub.take_missed(subscription + 100), 0);
}

#[test]
fn every_matching_subscriber_is_accounted_for_exactly_once() {
    let mut hub = EventHub::new(1);
    let a = hub.subscribe();
    let b = hub.subscribe();
    let c = hub.subscribe_object(EventObjectKind::Task, "t".to_string());
    let _ = hub.publish("fill".to_string(), None);
    let _ = hub.try_recv(a);
    hub.unsubscribe(b);
    let outcome = hub.publish("second".to_string(), None);
    assert_eq!(outcome.delivered, 1);
    assert_eq!(outcome.lagging, 0);
    assert_eq!(outcome.disconnected, 1);
    assert_eq!(hub.subscriber_count(), 2);
    assert!(hub.try_recv(c).is_err());
}

#[test]
fn a_fresh_hub_can_take_subscriptions() {
    let mut hub = EventHub::new(4);
    assert!(hub.can_subscribe());
    let first = hub.subscribe();
    let second = hub.subscribe();
    assert!(second > first);
    assert!(hub.can_subscribe());
}

#[test]
fn successive_publishes_number_events_in_order_and_drop_disconnected() {
    let mut hub = EventHub::new(4);
    let keep = hub.subscribe();
    let gone = hub.subscribe();
    hub.unsubscribe(gone);
    assert_eq!(hub.subscriber_count(), 2);
    let outcome = hub.publish("one".to_string(), None);
    assert_eq!(outcome.disconnected, 1);
    assert_eq!(hub.subscriber_count(), 1);
    hub.publish("two".to_string(), None);
    let first = hub.try_recv(keep).unwrap();
    let second = hub.try_recv(keep).unwrap();
    assert_eq!(second.sequence, first.sequence + 1);
}
