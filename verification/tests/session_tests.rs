use frontdoor::session::{greeting_message, session_step, SessionAction, SessionEvent, SessionState};

#[test]
fn taking_ownership_sends_the_greeting() {
    let (state, action) = session_step(SessionState::Started, SessionEvent::Opened);
    assert_eq!(state, SessionState::Open);
    assert_eq!(action, SessionAction::SendGreeting);
}

#[test]
fn inbound_messages_keep_the_loop_listening() {
    let (state, action) = session_step(SessionState::Open, SessionEvent::Inbound);
    assert_eq!(state, SessionState::Open);
    assert_eq!(action, SessionAction::KeepListening);
}

#[test]
fn close_and_failure_release_the_connection() {
    let (state, action) = session_step(SessionState::Open, SessionEvent::PeerClosed);
    assert_eq!(state, SessionState::Closed);
    assert_eq!(action, SessionAction::Release);
    let (state, action) = session_step(SessionState::Open, SessionEvent::Failed);
    assert_eq!(state, SessionState::Closed);
    assert_eq!(action, SessionAction::Release);
}

#[test]
fn closed_sessions_stay_closed() {
    let (state, action) = session_step(SessionState::Closed, SessionEvent::Inbound);
    assert_eq!(state, SessionState::Closed);
    assert_eq!(action, SessionAction::Release);
}

#[test]
fn greeting_text() {
    assert_eq!(greeting_message(), "Hello WebSocket");
}
