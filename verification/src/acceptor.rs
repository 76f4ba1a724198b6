//! The server's acceptor loop: one connection attempt after the other, each
//! handshake on its own, until the endpoint closes.

use crate::server::Server;
use vstd::prelude::*;

verus! {

/// Where the acceptor stands.
#[derive(Clone, Copy, Debug, PartialEq, Eq, Structural)]
pub enum AcceptorState {
    /// Waiting for the next connection attempt.
    Listening,
    /// An attempt has arrived and its handshake is under way.
    HandshakeInProgress,
    /// The handshake completed: the session is to be handed to a task of its
    /// own.
    Established,
    /// The handshake failed: the failure is to be reported.
    HandshakeFailed,
    /// The endpoint is closed: no attempt will arrive any more.
    Closed,
}

/// What the endpoint reports to the acceptor.
#[derive(Clone, Copy, Debug, PartialEq, Eq, Structural)]
pub enum AcceptorEvent {
    /// A connection attempt arrived.
    Incoming,
    /// The endpoint is closed.
    EndpointClosed,
    /// The handshake of the attempt at hand completed.
    HandshakeCompleted,
    /// The handshake of the attempt at hand failed.
    HandshakeRejected,
    /// The session was handed over, or the failure reported, as asked.
    Handled,
}

/// What the acceptor asks for.
#[derive(Clone, Copy, Debug, PartialEq, Eq, Structural)]
pub enum AcceptorAction {
    /// Wait for the next connection attempt.
    Accept,
    /// Wait for the handshake of the attempt at hand.
    AwaitHandshake,
    /// Hand the new session to a task of its own; never serve it inline.
    SpawnSession,
    /// Report the failed handshake.
    ReportFailure,
    /// Leave the loop.
    Stop,
}

/// The state that follows `state` when the endpoint reports `event`.
///
/// Whatever the outcome of a handshake, the acceptor returns to
/// [`AcceptorState::Listening`]. Only a closed endpoint, learned of while
/// listening, ends the loop. An event that does not answer what the state is
/// waiting for changes nothing.
pub open spec fn acceptor_step(state: AcceptorState, event: AcceptorEvent) -> AcceptorState {
    match (state, event) {
        (AcceptorState::Listening, AcceptorEvent::Incoming) => AcceptorState::HandshakeInProgress,
        (AcceptorState::Listening, AcceptorEvent::EndpointClosed) => AcceptorState::Closed,
        (AcceptorState::HandshakeInProgress, AcceptorEvent::HandshakeCompleted) => {
            AcceptorState::Established
        },
        (AcceptorState::HandshakeInProgress, AcceptorEvent::HandshakeRejected) => {
            AcceptorState::HandshakeFailed
        },
        (AcceptorState::Established, AcceptorEvent::Handled) => AcceptorState::Listening,
        (AcceptorState::HandshakeFailed, AcceptorEvent::Handled) => AcceptorState::Listening,
        _ => state,
    }
}

/// What an acceptor in `state` is waiting for.
pub open spec fn acceptor_action(state: AcceptorState) -> AcceptorAction {
    match state {
        AcceptorState::Listening => AcceptorAction::Accept,
        AcceptorState::HandshakeInProgress => AcceptorAction::AwaitHandshake,
        AcceptorState::Established => AcceptorAction::SpawnSession,
        AcceptorState::HandshakeFailed => AcceptorAction::ReportFailure,
        AcceptorState::Closed => AcceptorAction::Stop,
    }
}

/// The state an acceptor reaches from `state` when the endpoint reports
/// `events` one after the other.
pub open spec fn acceptor_run(state: AcceptorState, events: Seq<AcceptorEvent>) -> AcceptorState
    decreases events.len(),
{
    if events.len() == 0 {
        state
    } else {
        acceptor_step(acceptor_run(state, events.drop_last()), events.last())
    }
}

impl AcceptorState {
    /// The acceptor of an endpoint that was just bound: it listens.
    pub fn new() -> (state: AcceptorState)
        ensures
            state == AcceptorState::Listening,
    {
        AcceptorState::Listening
    }

    /// What to do in this state.
    pub fn action(&self) -> (action: AcceptorAction)
        ensures
            action == acceptor_action(*self),
    {
        match self {
            AcceptorState::Listening => AcceptorAction::Accept,
            AcceptorState::HandshakeInProgress => AcceptorAction::AwaitHandshake,
            AcceptorState::Established => AcceptorAction::SpawnSession,
            AcceptorState::HandshakeFailed => AcceptorAction::ReportFailure,
            AcceptorState::Closed => AcceptorAction::Stop,
        }
    }
}

impl Server {
    /// Takes one step of the acceptor loop: the acceptor in `state` learns of
    /// `event` and moves to the state that [`acceptor_step`] gives.
    pub fn server_loop(state: AcceptorState, event: AcceptorEvent) -> (next: AcceptorState)
        ensures
            next == acceptor_step(state, event),
    {
        match state {
            AcceptorState::Listening => match event {
                AcceptorEvent::Incoming => AcceptorState::HandshakeInProgress,
                AcceptorEvent::EndpointClosed => AcceptorState::Closed,
                _ => state,
            },
            AcceptorState::HandshakeInProgress => match event {
                AcceptorEvent::HandshakeCompleted => AcceptorState::Established,
                AcceptorEvent::HandshakeRejected => AcceptorState::HandshakeFailed,
                _ => state,
            },
            AcceptorState::Established | AcceptorState::HandshakeFailed => match event {
                AcceptorEvent::Handled => AcceptorState::Listening,
                _ => state,
            },
            AcceptorState::Closed => state,
        }
    }
}

/// One more event extends a run by one step.
pub proof fn lemma_acceptor_run_push(
    state: AcceptorState,
    events: Seq<AcceptorEvent>,
    event: AcceptorEvent,
)
    ensures
        acceptor_run(state, events.push(event)) == acceptor_step(
            acceptor_run(state, events),
            event,
        ),
{
    assert(events.push(event).drop_last() =~= events);
}

/// The loop has one way out. An acceptor that has not stopped stops only if
/// the endpoint is reported closed; no handshake, however it ends, stops it.
pub proof fn lemma_acceptor_stops_only_on_closed_endpoint(
    state: AcceptorState,
    events: Seq<AcceptorEvent>,
)
    requires
        state != AcceptorState::Closed,
        acceptor_run(state, events) == AcceptorState::Closed,
    ensures
        events.contains(AcceptorEvent::EndpointClosed),
    decreases events.len(),
{
    if events.len() > 0 {
        let before = events.drop_last();
        if acceptor_run(state, before) == AcceptorState::Closed {
            lemma_acceptor_stops_only_on_closed_endpoint(state, before);
            let i = choose|i: int|
                0 <= i < before.len() && before[i] == AcceptorEvent::EndpointClosed;
            assert(events[i] == AcceptorEvent::EndpointClosed);
        } else {
            assert(events[events.len() - 1] == AcceptorEvent::EndpointClosed);
        }
    }
}

/// A failed handshake harms no later attempt. Take any history that leaves
/// the acceptor in the middle of a handshake. If that handshake fails and the
/// failure is reported, the acceptor listens again, and the next attempt
/// whose handshake completes is established and handed to a task of its own.
pub proof fn lemma_failed_handshake_is_isolated(history: Seq<AcceptorEvent>)
    requires
        acceptor_run(AcceptorState::Listening, history) == AcceptorState::HandshakeInProgress,
    ensures
        acceptor_run(
            AcceptorState::Listening,
            history + seq![AcceptorEvent::HandshakeRejected, AcceptorEvent::Handled],
        ) == AcceptorState::Listening,
        acceptor_run(
            AcceptorState::Listening,
            history + seq![
                AcceptorEvent::HandshakeRejected,
                AcceptorEvent::Handled,
                AcceptorEvent::Incoming,
                AcceptorEvent::HandshakeCompleted,
            ],
        ) == AcceptorState::Established,
        acceptor_action(AcceptorState::Established) == AcceptorAction::SpawnSession,
{
    let start = AcceptorState::Listening;
    let e1 = AcceptorEvent::HandshakeRejected;
    let e2 = AcceptorEvent::Handled;
    let e3 = AcceptorEvent::Incoming;
    let e4 = AcceptorEvent::HandshakeCompleted;
    lemma_acceptor_run_push(start, history, e1);
    lemma_acceptor_run_push(start, history.push(e1), e2);
    lemma_acceptor_run_push(start, history.push(e1).push(e2), e3);
    lemma_acceptor_run_push(start, history.push(e1).push(e2).push(e3), e4);
    assert(history + seq![e1, e2] =~= history.push(e1).push(e2));
    assert(history + seq![e1, e2, e3, e4] =~= history.push(e1).push(e2).push(e3).push(e4));
}

/// No session without a handshake. Whatever the endpoint reports to an
/// acceptor that starts by listening: a session is to be handed over only if
/// a handshake was reported complete.
pub proof fn lemma_session_needs_handshake(events: Seq<AcceptorEvent>)
    requires
        acceptor_run(AcceptorState::Listening, events) == AcceptorState::Established,
    ensures
        events.contains(AcceptorEvent::HandshakeCompleted),
    decreases events.len(),
{
    if events.len() > 0 {
        let before = events.drop_last();
        if acceptor_run(AcceptorState::Listening, before) == AcceptorState::Established {
            lemma_session_needs_handshake(before);
            let i = choose|i: int|
                0 <= i < before.len() && before[i] == AcceptorEvent::HandshakeCompleted;
            assert(events[i] == AcceptorEvent::HandshakeCompleted);
        } else {
            assert(events[events.len() - 1] == AcceptorEvent::HandshakeCompleted);
        }
    }
}

} // verus!
