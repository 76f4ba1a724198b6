use quic_echo::server::Server;
use quic_echo::session::{CloseReason, SessionAction, SessionEvent, SessionState};
use quic_echo::stream::{StreamEvent, StreamOutcome, StreamState};

#[test]
fn fresh_session_accepts_streams() {
    let state = SessionState::new();
    assert_eq!(state, SessionState::Accepting);
    assert_eq!(state.action(), SessionAction::AcceptStream);
}

#[test]
fn accepted_stream_gets_a_handler_of_its_own() {
    let state = Server::handle_connection(SessionState::new(), SessionEvent::StreamAccepted);
    assert_eq!(state, SessionState::Dispatching);
    assert_eq!(state.action(), SessionAction::SpawnStreamHandler);
    assert_eq!(Server::handle_connection(state, SessionEvent::Handled), SessionState::Accepting);
}

#[test]
fn closed_connection_ends_the_session_for_each_reason() {
    for reason in [CloseReason::PeerClosed, CloseReason::IdleTimeout, CloseReason::TransportError] {
        let state =
            Server::handle_connection(SessionState::new(), SessionEvent::ConnectionClosed(reason));
        assert_eq!(state, SessionState::Closed(reason));
        assert_eq!(state.action(), SessionAction::Stop(reason));
    }
}

#[test]
fn idle_connection_is_given_up_after_any_number_of_streams() {
    let mut state = SessionState::new();
    for _ in 0..7 {
        state = Server::handle_connection(state, SessionEvent::StreamAccepted);
        state = Server::handle_connection(state, SessionEvent::Handled);
    }
    state =
        Server::handle_connection(state, SessionEvent::ConnectionClosed(CloseReason::IdleTimeout));
    assert_eq!(state, SessionState::Closed(CloseReason::IdleTimeout));
    let later = Server::handle_connection(state, SessionEvent::StreamAccepted);
    assert_eq!(later, SessionState::Closed(CloseReason::IdleTimeout));
}

#[test]
fn session_ignores_what_it_is_not_waiting_for() {
    let accepting = SessionState::Accepting;
    assert_eq!(Server::handle_connection(accepting, SessionEvent::Handled), accepting);
    let dispatching = SessionState::Dispatching;
    assert_eq!(Server::handle_connection(dispatching, SessionEvent::StreamAccepted), dispatching);
    assert_eq!(
        Server::handle_connection(
            dispatching,
            SessionEvent::ConnectionClosed(CloseReason::PeerClosed)
        ),
        dispatching
    );
}

#[test]
fn stalled_stream_does_not_hold_up_its_sibling() {
    // Stream A delivers one chunk and then stalls in the middle of its write;
    // stream B is served in full in between.
    let mut a = StreamState::new();
    let mut b = StreamState::new();
    a = Server::handle_stream(a, StreamEvent::Data(vec![1, 1, 1]));
    b = Server::handle_stream(b, StreamEvent::Data(vec![2, 2]));
    b = Server::handle_stream(b, StreamEvent::Written);
    b = Server::handle_stream(b, StreamEvent::EndOfStream);
    assert_eq!(b, StreamState::Closed(StreamOutcome::Completed));
    assert_eq!(a, StreamState::Echoing(vec![1, 1, 1]));
}

#[test]
fn failing_stream_leaves_session_and_sibling_alone() {
    let mut session = SessionState::new();
    session = Server::handle_connection(session, SessionEvent::StreamAccepted);
    session = Server::handle_connection(session, SessionEvent::Handled);
    let mut a = StreamState::new();
    let mut b = StreamState::new();
    a = Server::handle_stream(a, StreamEvent::Data(vec![7]));
    a = Server::handle_stream(a, StreamEvent::WriteFailed);
    assert!(matches!(a, StreamState::Closed(StreamOutcome::Failed(_))));
    b = Server::handle_stream(b, StreamEvent::Data(vec![8]));
    assert_eq!(b, StreamState::Echoing(vec![8]));
    assert_eq!(session, SessionState::Accepting);
    assert_eq!(session.action(), SessionAction::AcceptStream);
}
