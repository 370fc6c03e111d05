use vstd::prelude::*;

verus! {

/// Where a WebSocket session stands after the upgrade.
#[derive(Clone, Copy, Debug, PartialEq, Eq, Structural)]
pub enum SessionState {
    /// The transport was just taken over; nothing was sent yet.
    Started,
    /// The greeting went out; the loop is listening for inbound messages.
    Open,
    /// The session ended; the connection is released and never reused.
    Closed,
}

/// What the transport reports to the session loop.
#[derive(Clone, Copy, Debug, PartialEq, Eq, Structural)]
pub enum SessionEvent {
    /// Ownership of the upgraded transport was taken.
    Opened,
    /// One inbound message arrived.
    Inbound,
    /// The peer closed the stream.
    PeerClosed,
    /// A receive failed with a protocol or transport error.
    Failed,
}

/// What the loop must do next.
#[derive(Clone, Copy, Debug, PartialEq, Eq, Structural)]
pub enum SessionAction {
    /// Send the one greeting text message.
    SendGreeting,
    /// Observe the message and keep listening.
    KeepListening,
    /// Release the connection; the loop is over.
    Release,
}

/// The session loop's decision table: the greeting goes out once on taking
/// ownership; every inbound message is observed and the loop stays listening;
/// a peer close or any failure ends the session; a closed session only ever
/// releases.
pub open spec fn session_step_spec(state: SessionState, event: SessionEvent) -> (
    SessionState,
    SessionAction,
) {
    match (state, event) {
        (SessionState::Started, SessionEvent::Opened) => (
            SessionState::Open,
            SessionAction::SendGreeting,
        ),
        (SessionState::Open, SessionEvent::Inbound) => (
            SessionState::Open,
            SessionAction::KeepListening,
        ),
        _ => (SessionState::Closed, SessionAction::Release),
    }
}

/// One decision of the session loop; the caller performs the action and hands
/// back the next event.
pub fn session_step(state: SessionState, event: SessionEvent) -> (r: (
    SessionState,
    SessionAction,
))
    ensures
        r == session_step_spec(state, event),
{
    match (state, event) {
        (SessionState::Started, SessionEvent::Opened) => (
            SessionState::Open,
            SessionAction::SendGreeting,
        ),
        (SessionState::Open, SessionEvent::Inbound) => (
            SessionState::Open,
            SessionAction::KeepListening,
        ),
        _ => (SessionState::Closed, SessionAction::Release),
    }
}

/// The one greeting text message sent on taking ownership.
pub fn greeting_message() -> (r: String)
    ensures
        r@ == "Hello WebSocket"@,
{
    "Hello WebSocket".to_owned()
}

/// Law: a peer close or a failure, in any state, ends the session and
/// releases the connection at once, and a closed session stays closed
/// whatever else arrives.
pub proof fn lemma_session_terminates(state: SessionState, event: SessionEvent)
    ensures
        event == SessionEvent::PeerClosed || event == SessionEvent::Failed
            ==> session_step_spec(state, event) == (SessionState::Closed, SessionAction::Release),
        session_step_spec(SessionState::Closed, event) == (
            SessionState::Closed,
            SessionAction::Release,
        ),
{
}

} // verus!
