use task_sync::bus::{EventBus, RecvOutcome, BACKLOG_CAPACITY};
use task_sync::model::{ChangeEvent, Task};

fn task(id: i32, title: &str) -> Task {
    Task {
        id,
        title: title.to_string(),
        completed: false,
        category: "general".to_string(),
        created_at: 1000,
        updated_at: 1000,
        user_id: 1,
    }
}

#[test]
fn fans_out_one_event_to_all_subscribers() {
    let mut bus = EventBus::new();
    let subs = [bus.subscribe(), bus.subscribe(), bus.subscribe()];
    bus.publish(ChangeEvent::Created(task(1, "a")));
    for &s in subs.iter() {
        assert_eq!(bus.recv(s), RecvOutcome::Event(ChangeEvent::Created(task(1, "a"))));
        assert_eq!(bus.recv(s), RecvOutcome::Empty);
    }
}

#[test]
fn delivery_order_matches_publish_order() {
    let mut bus = EventBus::new();
    let s = bus.subscribe();
    bus.publish(ChangeEvent::Created(task(1, "a")));
    bus.publish(ChangeEvent::Updated(task(1, "b")));
    bus.publish(ChangeEvent::Deleted(1));
    assert_eq!(bus.recv(s), RecvOutcome::Event(ChangeEvent::Created(task(1, "a"))));
    assert_eq!(bus.recv(s), RecvOutcome::Event(ChangeEvent::Updated(task(1, "b"))));
    assert_eq!(bus.recv(s), RecvOutcome::Event(ChangeEvent::Deleted(1)));
    assert_eq!(bus.recv(s), RecvOutcome::Empty);
}

#[test]
fn new_subscriber_sees_only_future_events() {
    let mut bus = EventBus::new();
    bus.publish(ChangeEvent::Deleted(1));
    let s = bus.subscribe();
    assert_eq!(bus.recv(s), RecvOutcome::Empty);
    bus.publish(ChangeEvent::Deleted(2));
    assert_eq!(bus.recv(s), RecvOutcome::Event(ChangeEvent::Deleted(2)));
}

#[test]
fn slow_subscriber_loses_oldest_but_keeps_receiving() {
    let mut bus = EventBus::new();
    let s = bus.subscribe();
    let extra = 50;
    let total = BACKLOG_CAPACITY + extra;
    for i in 0..total {
        bus.publish(ChangeEvent::Deleted(i as i32));
    }
    // The subscriber lost exactly the oldest `extra` events...
    assert_eq!(bus.recv(s), RecvOutcome::Lagged(extra as u64));
    // ...and still receives the rest, oldest retained first, in order.
    for i in extra..total {
        assert_eq!(bus.recv(s), RecvOutcome::Event(ChangeEvent::Deleted(i as i32)));
    }
    assert_eq!(bus.recv(s), RecvOutcome::Empty);
    // It was never evicted.
    assert_eq!(bus.subscriber_count(), 1);
    bus.publish(ChangeEvent::Deleted(-1));
    assert_eq!(bus.recv(s), RecvOutcome::Event(ChangeEvent::Deleted(-1)));
}

#[test]
fn exactly_at_capacity_nothing_lost() {
    let mut bus = EventBus::new();
    let s = bus.subscribe();
    for i in 0..BACKLOG_CAPACITY {
        bus.publish(ChangeEvent::Deleted(i as i32));
    }
    for i in 0..BACKLOG_CAPACITY {
        assert_eq!(bus.recv(s), RecvOutcome::Event(ChangeEvent::Deleted(i as i32)));
    }
    assert_eq!(bus.recv(s), RecvOutcome::Empty);
}

#[test]
fn subscriber_count_tracks_lifecycle() {
    let mut bus = EventBus::new();
    assert_eq!(bus.subscriber_count(), 0);
    let a = bus.subscribe();
    let b = bus.subscribe();
    assert_eq!(bus.subscriber_count(), 2);
    bus.unsubscribe(a);
    assert_eq!(bus.subscriber_count(), 1);
    bus.unsubscribe(b);
    assert_eq!(bus.subscriber_count(), 0);
}

#[test]
fn publishing_never_blocks_on_dead_or_slow_subscribers() {
    let mut bus = EventBus::new();
    let slow = bus.subscribe();
    let dead = bus.subscribe();
    bus.unsubscribe(dead);
    for i in 0..(3 * BACKLOG_CAPACITY) {
        bus.publish(ChangeEvent::Deleted(i as i32));
    }
    // The slow subscriber is told how much it missed and catches up.
    assert_eq!(bus.recv(slow), RecvOutcome::Lagged(2 * BACKLOG_CAPACITY as u64));
    assert_eq!(
        bus.recv(slow),
        RecvOutcome::Event(ChangeEvent::Deleted(2 * BACKLOG_CAPACITY as i32))
    );
}

#[test]
fn published_count_tracks_history() {
    let mut bus = EventBus::new();
    assert_eq!(bus.published_count(), 0);
    bus.publish(ChangeEvent::Deleted(1));
    bus.publish(ChangeEvent::Deleted(2));
    assert_eq!(bus.published_count(), 2);
    let s = bus.subscribe();
    let _ = bus.recv(s);
    assert_eq!(bus.published_count(), 2);
}
