//! One established connection: the loop that accepts its streams, and the
//! connection seen together with the stream handlers it has started.

use crate::server::Server;
use crate::stream::{
    concat, delivery, lemma_echo_correct, stream_echoed, stream_run, stream_step, StreamEventView,
    StreamOutcome, StreamStateView,
};
use vstd::prelude::*;

verus! {

/// Why a connection is over.
#[derive(Clone, Copy, Debug, PartialEq, Eq, Structural)]
pub enum CloseReason {
    /// The peer closed it.
    PeerClosed,
    /// Nothing was heard of the peer for longer than the idle timeout.
    IdleTimeout,
    /// The transport lost it.
    TransportError,
}

/// Where the stream-accepting loop of a connection stands.
#[derive(Clone, Copy, Debug, PartialEq, Eq, Structural)]
pub enum SessionState {
    /// Waiting for the peer to open the next bidirectional stream.
    Accepting,
    /// A stream was accepted: it is to be handed to a handler of its own.
    Dispatching,
    /// The connection is over. This is how every session ends, and no error.
    Closed(CloseReason),
}

/// What the connection reports to the loop.
#[derive(Clone, Copy, Debug, PartialEq, Eq, Structural)]
pub enum SessionEvent {
    /// The peer opened a bidirectional stream.
    StreamAccepted,
    /// No stream can be accepted any more: the connection is over.
    ConnectionClosed(CloseReason),
    /// The stream was handed to its handler, as asked.
    Handled,
}

/// What the loop asks for.
#[derive(Clone, Copy, Debug, PartialEq, Eq, Structural)]
pub enum SessionAction {
    /// Wait for the next bidirectional stream.
    AcceptStream,
    /// Start a handler for the accepted stream, as a task of its own.
    SpawnStreamHandler,
    /// Leave the loop; the reason is only for the log.
    Stop(CloseReason),
}

/// The state that follows `state` when the connection reports `event`.
///
/// The loop goes round between accepting and dispatching and ends when the
/// connection is reported closed while it is accepting. An event that does
/// not answer what the state is waiting for changes nothing.
pub open spec fn session_step(state: SessionState, event: SessionEvent) -> SessionState {
    match (state, event) {
        (SessionState::Accepting, SessionEvent::StreamAccepted) => SessionState::Dispatching,
        (SessionState::Accepting, SessionEvent::ConnectionClosed(reason)) => SessionState::Closed(
            reason,
        ),
        (SessionState::Dispatching, SessionEvent::Handled) => SessionState::Accepting,
        _ => state,
    }
}

/// What a loop in `state` is waiting for.
pub open spec fn session_action(state: SessionState) -> SessionAction {
    match state {
        SessionState::Accepting => SessionAction::AcceptStream,
        SessionState::Dispatching => SessionAction::SpawnStreamHandler,
        SessionState::Closed(reason) => SessionAction::Stop(reason),
    }
}

impl SessionState {
    /// The loop of a connection that was just established: it accepts.
    pub fn new() -> (state: SessionState)
        ensures
            state == SessionState::Accepting,
    {
        SessionState::Accepting
    }

    /// What to do in this state.
    pub fn action(&self) -> (action: SessionAction)
        ensures
            action == session_action(*self),
    {
        match self {
            SessionState::Accepting => SessionAction::AcceptStream,
            SessionState::Dispatching => SessionAction::SpawnStreamHandler,
            SessionState::Closed(reason) => SessionAction::Stop(*reason),
        }
    }
}

impl Server {
    /// Takes one step of the stream-accepting loop of a connection: the loop
    /// in `state` learns of `event` and moves to the state that
    /// [`session_step`] gives.
    pub fn handle_connection(state: SessionState, event: SessionEvent) -> (next: SessionState)
        ensures
            next == session_step(state, event),
    {
        match state {
            SessionState::Accepting => match event {
                SessionEvent::StreamAccepted => SessionState::Dispatching,
                SessionEvent::ConnectionClosed(reason) => SessionState::Closed(reason),
                _ => state,
            },
            SessionState::Dispatching => match event {
                SessionEvent::Handled => SessionState::Accepting,
                _ => state,
            },
            SessionState::Closed(_) => state,
        }
    }
}

/// A connection together with the handlers of the streams accepted on it so
/// far, in the order in which they were started.
pub struct Connection {
    pub session: SessionState,
    pub streams: Seq<StreamStateView>,
}

/// Something that happens on a connection: to its accepting loop, or to the
/// handler of one of its streams.
pub enum ConnectionEvent {
    /// The accepting loop learns of an event.
    Session(SessionEvent),
    /// The handler of the stream with this number learns of an event.
    Stream(int, StreamEventView),
}

/// The connection that follows `conn` when `event` happens.
///
/// An event of the accepting loop moves the loop alone, except that handing
/// over an accepted stream starts a new handler, which reads. An event of a
/// stream moves the handler of that stream alone. An event for a stream that
/// was never started changes nothing.
pub open spec fn connection_step(conn: Connection, event: ConnectionEvent) -> Connection {
    match event {
        ConnectionEvent::Session(e) => Connection {
            session: session_step(conn.session, e),
            streams: if conn.session == SessionState::Dispatching && e == SessionEvent::Handled {
                conn.streams.push(StreamStateView::Reading)
            } else {
                conn.streams
            },
        },
        ConnectionEvent::Stream(id, e) => if 0 <= id < conn.streams.len() {
            Connection {
                session: conn.session,
                streams: conn.streams.update(id, stream_step(conn.streams[id], e)),
            }
        } else {
            conn
        },
    }
}

/// The connection reached from `conn` when `events` happen one after the
/// other.
pub open spec fn connection_run(conn: Connection, events: Seq<ConnectionEvent>) -> Connection
    decreases events.len(),
{
    if events.len() == 0 {
        conn
    } else {
        connection_step(connection_run(conn, events.drop_last()), events.last())
    }
}

/// Of `events`, those of the accepting loop, in order.
pub open spec fn session_events(events: Seq<ConnectionEvent>) -> Seq<SessionEvent>
    decreases events.len(),
{
    if events.len() == 0 {
        Seq::empty()
    } else {
        match events.last() {
            ConnectionEvent::Session(e) => session_events(events.drop_last()).push(e),
            _ => session_events(events.drop_last()),
        }
    }
}

/// Of `events`, those of the stream numbered `id`, in order.
pub open spec fn stream_events(events: Seq<ConnectionEvent>, id: int) -> Seq<StreamEventView>
    decreases events.len(),
{
    if events.len() == 0 {
        Seq::empty()
    } else {
        match events.last() {
            ConnectionEvent::Stream(i, e) if i == id => stream_events(events.drop_last(), id).push(
                e,
            ),
            _ => stream_events(events.drop_last(), id),
        }
    }
}

/// The state the accepting loop reaches from `state` on `events`.
pub open spec fn session_run(state: SessionState, events: Seq<SessionEvent>) -> SessionState
    decreases events.len(),
{
    if events.len() == 0 {
        state
    } else {
        session_step(session_run(state, events.drop_last()), events.last())
    }
}

/// A session ends in one way only. A loop that has not stopped stops only if
/// the connection is reported closed, and then with the reason reported.
pub proof fn lemma_session_stops_only_on_closed_connection(
    state: SessionState,
    events: Seq<SessionEvent>,
    reason: CloseReason,
)
    requires
        !(state is Closed),
        session_run(state, events) == SessionState::Closed(reason),
    ensures
        events.contains(SessionEvent::ConnectionClosed(reason)),
    decreases events.len(),
{
    if events.len() > 0 {
        let before = events.drop_last();
        if session_run(state, before) == SessionState::Closed(reason) {
            lemma_session_stops_only_on_closed_connection(state, before, reason);
            let i = choose|i: int|
                0 <= i < before.len() && before[i] == SessionEvent::ConnectionClosed(reason);
            assert(events[i] == SessionEvent::ConnectionClosed(reason));
        } else {
            assert(events[events.len() - 1] == SessionEvent::ConnectionClosed(reason));
        }
    }
}

/// An event of one stream moves the handler of that stream and nothing else:
/// not the accepting loop, not the handler of any other stream.
pub proof fn lemma_stream_event_is_contained(conn: Connection, id: int, event: StreamEventView)
    ensures
        connection_step(conn, ConnectionEvent::Stream(id, event)).session == conn.session,
        connection_step(conn, ConnectionEvent::Stream(id, event)).streams.len()
            == conn.streams.len(),
        forall|other: int|
            0 <= other < conn.streams.len() && other != id ==> connection_step(
                conn,
                ConnectionEvent::Stream(id, event),
            ).streams[other] == conn.streams[other],
{
}

/// The accepting loop goes its way whatever happens on the streams: after
/// any events on a connection, its loop stands where its own events alone
/// would have brought it. In particular no failure of a stream handler ends
/// the session.
pub proof fn lemma_session_ignores_streams(conn: Connection, events: Seq<ConnectionEvent>)
    ensures
        connection_run(conn, events).session == session_run(conn.session, session_events(events)),
    decreases events.len(),
{
    if events.len() > 0 {
        lemma_session_ignores_streams(conn, events.drop_last());
        match events.last() {
            ConnectionEvent::Session(e) => {
                assert(session_events(events).drop_last() =~= session_events(events.drop_last()));
            },
            ConnectionEvent::Stream(id, e) => {},
        }
    }
}

/// Streams make progress independently. After any events on a connection,
/// in any interleaving, the handler of a stream that had been started stands
/// where the events of its own stream alone would have brought it.
pub proof fn lemma_streams_are_independent(
    conn: Connection,
    events: Seq<ConnectionEvent>,
    id: int,
)
    requires
        0 <= id < conn.streams.len(),
    ensures
        conn.streams.len() <= connection_run(conn, events).streams.len(),
        connection_run(conn, events).streams[id] == stream_run(
            conn.streams[id],
            stream_events(events, id),
        ),
    decreases events.len(),
{
    if events.len() > 0 {
        lemma_streams_are_independent(conn, events.drop_last(), id);
        match events.last() {
            ConnectionEvent::Stream(i, e) => {
                if i == id {
                    assert(stream_events(events, id).drop_last() =~= stream_events(
                        events.drop_last(),
                        id,
                    ));
                }
            },
            ConnectionEvent::Session(e) => {},
        }
    }
}

/// A stream that is served in full completes, whatever its siblings do. Let
/// the stream numbered `id` have a fresh handler, and let its own events be
/// the delivery of `chunks`, none of them empty, followed by the end of the
/// stream. Then however these are interleaved with events of the accepting
/// loop and of other streams, slow, stalled or failing, the handler closes
/// with success, having echoed the bytes of `chunks`.
pub proof fn lemma_sibling_streams_do_not_delay(
    conn: Connection,
    events: Seq<ConnectionEvent>,
    id: int,
    chunks: Seq<Seq<u8>>,
)
    requires
        0 <= id < conn.streams.len(),
        conn.streams[id] == StreamStateView::Reading,
        forall|i: int| 0 <= i < chunks.len() ==> (#[trigger] chunks[i]).len() > 0,
        stream_events(events, id) == delivery(chunks).push(StreamEventView::EndOfStream),
    ensures
        connection_run(conn, events).streams[id] == StreamStateView::Closed(
            StreamOutcome::Completed,
        ),
        stream_echoed(StreamStateView::Reading, stream_events(events, id)) == concat(chunks),
{
    lemma_streams_are_independent(conn, events, id);
    lemma_echo_correct(chunks);
}

/// One more event extends a run of the accepting loop by one step.
pub proof fn lemma_session_run_push(
    state: SessionState,
    events: Seq<SessionEvent>,
    event: SessionEvent,
)
    ensures
        session_run(state, events.push(event)) == session_step(session_run(state, events), event),
{
    assert(events.push(event).drop_last() =~= events);
}

/// A connection that has gone idle is given up without anyone stepping in.
/// Take any history that leaves the loop accepting. Once the transport
/// reports that the idle timeout has passed, the loop is closed for that
/// reason, asks for nothing but to stop, and stays closed whatever is
/// reported afterwards. When the timeout passes is the transport's matter;
/// the server's configuration sees to it that a mechanism for it is in force.
pub proof fn lemma_idle_connection_is_given_up(
    history: Seq<SessionEvent>,
    later: Seq<SessionEvent>,
)
    requires
        session_run(SessionState::Accepting, history) == SessionState::Accepting,
    ensures
        session_run(
            SessionState::Accepting,
            history.push(SessionEvent::ConnectionClosed(CloseReason::IdleTimeout)),
        ) == SessionState::Closed(CloseReason::IdleTimeout),
        session_action(SessionState::Closed(CloseReason::IdleTimeout)) == SessionAction::Stop(
            CloseReason::IdleTimeout,
        ),
        session_run(SessionState::Closed(CloseReason::IdleTimeout), later) == SessionState::Closed(
            CloseReason::IdleTimeout,
        ),
    decreases later.len(),
{
    lemma_session_run_push(
        SessionState::Accepting,
        history,
        SessionEvent::ConnectionClosed(CloseReason::IdleTimeout),
    );
    if later.len() > 0 {
        lemma_idle_connection_is_given_up(history, later.drop_last());
    }
}

} // verus!
