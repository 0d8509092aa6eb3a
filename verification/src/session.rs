//! Per-connection streaming session lifecycle.
//!
//! Once a connection upgrades, two sibling activities run concurrently: the
//! outbound relay takes events from the session's bus subscription and
//! writes them out; the inbound drain reads client messages and discards
//! text (client stream messages carry no server-side meaning). The session's
//! only termination rule is first-to-finish: as soon as either activity
//! ends — peer close, read failure, or write failure — the session closes,
//! the sibling is cancelled and the subscription released. The runtime that
//! actually performs the reads, writes and cancellation drives this state
//! machine one observed event at a time.

use vstd::prelude::*;

verus! {

/// Lifecycle of one streaming connection.
#[derive(Clone, Copy, Debug, PartialEq, Eq, Structural)]
pub enum SessionState {
    /// The upgrade handshake is in flight.
    Connecting,
    /// The relay and the drain are both running.
    Streaming,
    /// Terminal.
    Closed,
}

/// What one of the session's activities observed.
#[derive(Clone, Copy, Debug, PartialEq, Eq, Structural)]
pub enum SessionEvent {
    /// The upgrade handshake finished.
    Upgraded,
    /// The inbound drain read a text message.
    InboundText,
    /// The inbound drain read a close message.
    InboundClose,
    /// The inbound drain failed to read.
    InboundFailed,
    /// The outbound relay failed to write.
    OutboundFailed,
    /// The outbound relay was told its subscription lost events.
    OutboundLagged,
}

/// What the runtime must do after a step.
#[derive(Clone, Copy, Debug, PartialEq, Eq, Structural)]
pub enum SessionAction {
    /// Acquire a bus subscription and start both activities.
    StartStreaming,
    /// Keep going; the event was inert.
    Continue,
    /// Cancel the sibling activity and release the subscription.
    Teardown,
}

/// The transition relation of a session. While streaming, text messages
/// are accepted and discarded and a lag signal is non-fatal; the end of
/// either activity closes the session. `Closed` absorbs everything.
pub open spec fn session_step_spec(state: SessionState, event: SessionEvent) -> (
    SessionState,
    SessionAction,
) {
    match state {
        SessionState::Connecting => match event {
            SessionEvent::Upgraded => (SessionState::Streaming, SessionAction::StartStreaming),
            _ => (SessionState::Closed, SessionAction::Continue),
        },
        SessionState::Streaming => match event {
            SessionEvent::Upgraded => (SessionState::Streaming, SessionAction::Continue),
            SessionEvent::InboundText => (SessionState::Streaming, SessionAction::Continue),
            SessionEvent::OutboundLagged => (SessionState::Streaming, SessionAction::Continue),
            SessionEvent::InboundClose => (SessionState::Closed, SessionAction::Teardown),
            SessionEvent::InboundFailed => (SessionState::Closed, SessionAction::Teardown),
            SessionEvent::OutboundFailed => (SessionState::Closed, SessionAction::Teardown),
        },
        SessionState::Closed => (SessionState::Closed, SessionAction::Continue),
    }
}

/// Advance the session by one observed event.
pub fn session_step(state: SessionState, event: SessionEvent) -> (r: (SessionState, SessionAction))
    ensures
        r == session_step_spec(state, event),
{
    match state {
        SessionState::Connecting => match event {
            SessionEvent::Upgraded => (SessionState::Streaming, SessionAction::StartStreaming),
            _ => (SessionState::Closed, SessionAction::Continue),
        },
        SessionState::Streaming => match event {
            SessionEvent::Upgraded => (SessionState::Streaming, SessionAction::Continue),
            SessionEvent::InboundText => (SessionState::Streaming, SessionAction::Continue),
            SessionEvent::OutboundLagged => (SessionState::Streaming, SessionAction::Continue),
            SessionEvent::InboundClose => (SessionState::Closed, SessionAction::Teardown),
            SessionEvent::InboundFailed => (SessionState::Closed, SessionAction::Teardown),
            SessionEvent::OutboundFailed => (SessionState::Closed, SessionAction::Teardown),
        },
        SessionState::Closed => (SessionState::Closed, SessionAction::Continue),
    }
}

/// The state a session reaches after observing a whole sequence of events.
pub open spec fn session_run(state: SessionState, events: Seq<SessionEvent>) -> SessionState
    decreases events.len(),
{
    if events.len() == 0 {
        state
    } else {
        session_run(session_step_spec(state, events[0]).0, events.drop_first())
    }
}

/// How many of the steps along `events` demand a teardown.
pub open spec fn teardown_count(state: SessionState, events: Seq<SessionEvent>) -> int
    decreases events.len(),
{
    if events.len() == 0 {
        0
    } else {
        (if session_step_spec(state, events[0]).1 == SessionAction::Teardown {
            1int
        } else {
            0int
        }) + teardown_count(session_step_spec(state, events[0]).0, events.drop_first())
    }
}

/// Once closed, a session stays closed along any sequence of later events.
pub proof fn lemma_closed_absorbs_trace(events: Seq<SessionEvent>)
    ensures
        session_run(SessionState::Closed, events) == SessionState::Closed,
    decreases events.len(),
{
    if events.len() > 0 {
        lemma_closed_absorbs_trace(events.drop_first());
    }
}

/// A closed session never demands another teardown.
pub proof fn lemma_no_teardown_after_close(events: Seq<SessionEvent>)
    ensures
        teardown_count(SessionState::Closed, events) == 0,
    decreases events.len(),
{
    if events.len() > 0 {
        lemma_no_teardown_after_close(events.drop_first());
    }
}

/// Along any sequence of observed events, a session demands teardown at
/// most once: the subscription it holds is released at most once, by the
/// first activity to finish.
pub proof fn lemma_teardown_at_most_once(state: SessionState, events: Seq<SessionEvent>)
    ensures
        teardown_count(state, events) <= 1,
    decreases events.len(),
{
    if events.len() > 0 {
        let (next, action) = session_step_spec(state, events[0]);
        if action == SessionAction::Teardown {
            assert(next == SessionState::Closed);
            lemma_no_teardown_after_close(events.drop_first());
        } else {
            lemma_teardown_at_most_once(next, events.drop_first());
        }
    }
}

/// First-to-finish: while streaming, the end of either activity — the peer
/// closing, a failed read, or a failed write — closes the session and
/// demands the teardown that cancels the sibling and releases the
/// subscription.
pub proof fn lemma_first_to_finish_teardown(event: SessionEvent)
    requires
        event == SessionEvent::InboundClose || event == SessionEvent::InboundFailed || event
            == SessionEvent::OutboundFailed,
    ensures
        session_step_spec(SessionState::Streaming, event) == (
            SessionState::Closed,
            SessionAction::Teardown,
        ),
{
}

/// `Closed` is terminal: no later event revives the session or demands a
/// second teardown, so the subscription is released exactly once.
pub proof fn lemma_closed_is_terminal(event: SessionEvent)
    ensures
        session_step_spec(SessionState::Closed, event) == (
            SessionState::Closed,
            SessionAction::Continue,
        ),
{
}

/// Inert traffic: a client text message or a lag signal never ends the
/// session — a lagging subscriber keeps streaming.
pub proof fn lemma_inert_events_keep_streaming(event: SessionEvent)
    requires
        event == SessionEvent::InboundText || event == SessionEvent::OutboundLagged,
    ensures
        session_step_spec(SessionState::Streaming, event) == (
            SessionState::Streaming,
            SessionAction::Continue,
        ),
{
}

} // verus!
