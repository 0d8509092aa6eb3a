use task_sync::bus::EventBus;
use task_sync::session::{session_step, SessionAction, SessionEvent, SessionState};

#[test]
fn upgrade_starts_streaming() {
    let (state, action) = session_step(SessionState::Connecting, SessionEvent::Upgraded);
    assert_eq!(state, SessionState::Streaming);
    assert_eq!(action, SessionAction::StartStreaming);
}

#[test]
fn text_and_lag_are_inert_while_streaming() {
    for event in [SessionEvent::InboundText, SessionEvent::OutboundLagged] {
        let (state, action) = session_step(SessionState::Streaming, event);
        assert_eq!(state, SessionState::Streaming);
        assert_eq!(action, SessionAction::Continue);
    }
}

#[test]
fn either_activity_ending_tears_the_session_down() {
    for event in [
        SessionEvent::InboundClose,
        SessionEvent::InboundFailed,
        SessionEvent::OutboundFailed,
    ] {
        let (state, action) = session_step(SessionState::Streaming, event);
        assert_eq!(state, SessionState::Closed);
        assert_eq!(action, SessionAction::Teardown);
    }
}

#[test]
fn closed_is_terminal() {
    for event in [
        SessionEvent::Upgraded,
        SessionEvent::InboundText,
        SessionEvent::InboundClose,
        SessionEvent::InboundFailed,
        SessionEvent::OutboundFailed,
        SessionEvent::OutboundLagged,
    ] {
        let (state, action) = session_step(SessionState::Closed, event);
        assert_eq!(state, SessionState::Closed);
        assert_eq!(action, SessionAction::Continue);
    }
}

#[test]
fn client_close_releases_the_subscription() {
    let mut bus = EventBus::new();
    let baseline = bus.subscriber_count();

    // The connection upgrades: the session subscribes and starts streaming.
    let (state, action) = session_step(SessionState::Connecting, SessionEvent::Upgraded);
    assert_eq!(action, SessionAction::StartStreaming);
    let sub = bus.subscribe();
    assert_eq!(bus.subscriber_count(), baseline + 1);

    // The client closes mid-stream: the step demands teardown, the runtime
    // cancels the sibling and releases the subscription.
    let (state, action) = session_step(state, SessionEvent::InboundClose);
    assert_eq!(state, SessionState::Closed);
    assert_eq!(action, SessionAction::Teardown);
    bus.unsubscribe(sub);
    assert_eq!(bus.subscriber_count(), baseline);
}
