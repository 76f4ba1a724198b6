//! The echo loop of one bidirectional stream, as a machine that is told what
//! the transport did and answers with what to do next.

use crate::server::Server;
use vstd::prelude::*;

verus! {

/// Most bytes asked of the transport in one read.
pub const READ_CHUNK: usize = 1024;

/// Why a stream handler gave up.
#[derive(Clone, Copy, Debug, PartialEq, Eq, Structural)]
pub enum StreamError {
    /// Writing a chunk back failed.
    StreamWriteFailed,
    /// Reading failed: the connection under the stream is gone.
    TransportError,
}

/// How a stream handler ended.
#[derive(Clone, Copy, Debug, PartialEq, Eq, Structural)]
pub enum StreamOutcome {
    /// The peer finished its side and everything read was echoed.
    Completed,
    /// The handler gave up for the reason held here.
    Failed(StreamError),
}

/// Where a stream handler stands.
#[derive(Clone, Debug, PartialEq, Eq)]
pub enum StreamState {
    /// Waiting for the next chunk from the peer.
    Reading,
    /// Waiting for the transport to take the chunk held here.
    Echoing(Vec<u8>),
    /// Done, in the way held here.
    Closed(StreamOutcome),
}

/// What the transport reports to a stream handler.
#[derive(Clone, Debug, PartialEq, Eq)]
pub enum StreamEvent {
    /// A read returned these bytes.
    Data(Vec<u8>),
    /// A read found the peer's side finished.
    EndOfStream,
    /// A read failed.
    ReadFailed,
    /// The chunk handed over was written in full.
    Written,
    /// The chunk handed over could not be written.
    WriteFailed,
}

/// What a stream handler asks of the transport.
#[derive(Clone, Debug, PartialEq, Eq)]
pub enum StreamAction {
    /// Read at most `max` bytes.
    Read { max: usize },
    /// Write all of these bytes.
    Write(Vec<u8>),
    /// Leave the stream, which ended in this way.
    Stop(StreamOutcome),
}

/// Model of [`StreamState`].
pub enum StreamStateView {
    Reading,
    Echoing(Seq<u8>),
    Closed(StreamOutcome),
}

/// Model of [`StreamEvent`].
pub enum StreamEventView {
    Data(Seq<u8>),
    EndOfStream,
    ReadFailed,
    Written,
    WriteFailed,
}

/// Model of [`StreamAction`].
pub enum StreamActionView {
    Read { max: nat },
    Write(Seq<u8>),
    Stop(StreamOutcome),
}

impl View for StreamState {
    type V = StreamStateView;

    open spec fn view(&self) -> StreamStateView {
        match self {
            StreamState::Reading => StreamStateView::Reading,
            StreamState::Echoing(chunk) => StreamStateView::Echoing(chunk@),
            StreamState::Closed(outcome) => StreamStateView::Closed(*outcome),
        }
    }
}

impl View for StreamEvent {
    type V = StreamEventView;

    open spec fn view(&self) -> StreamEventView {
        match self {
            StreamEvent::Data(chunk) => StreamEventView::Data(chunk@),
            StreamEvent::EndOfStream => StreamEventView::EndOfStream,
            StreamEvent::ReadFailed => StreamEventView::ReadFailed,
            StreamEvent::Written => StreamEventView::Written,
            StreamEvent::WriteFailed => StreamEventView::WriteFailed,
        }
    }
}

impl View for StreamAction {
    type V = StreamActionView;

    open spec fn view(&self) -> StreamActionView {
        match self {
            StreamAction::Read { max } => StreamActionView::Read { max: *max as nat },
            StreamAction::Write(chunk) => StreamActionView::Write(chunk@),
            StreamAction::Stop(outcome) => StreamActionView::Stop(*outcome),
        }
    }
}

/// The state that follows `state` when the transport reports `event`.
///
/// While reading, a non-empty chunk is taken up for echoing; an empty chunk
/// or the end of the stream closes the handler with success, a failed read
/// with [`StreamError::TransportError`]. While echoing, a completed write
/// returns to reading and a failed one closes the handler with
/// [`StreamError::StreamWriteFailed`]. An event that does not answer what the
/// state is waiting for changes nothing; a closed handler stays closed.
pub open spec fn stream_step(state: StreamStateView, event: StreamEventView) -> StreamStateView {
    match (state, event) {
        (StreamStateView::Reading, StreamEventView::Data(chunk)) => if chunk.len() == 0 {
            StreamStateView::Closed(StreamOutcome::Completed)
        } else {
            StreamStateView::Echoing(chunk)
        },
        (StreamStateView::Reading, StreamEventView::EndOfStream) => StreamStateView::Closed(
            StreamOutcome::Completed,
        ),
        (StreamStateView::Reading, StreamEventView::ReadFailed) => StreamStateView::Closed(
            StreamOutcome::Failed(StreamError::TransportError),
        ),
        (StreamStateView::Echoing(_), StreamEventView::Written) => StreamStateView::Reading,
        (StreamStateView::Echoing(_), StreamEventView::WriteFailed) => StreamStateView::Closed(
            StreamOutcome::Failed(StreamError::StreamWriteFailed),
        ),
        _ => state,
    }
}

/// What a handler in `state` is waiting for the transport to do.
pub open spec fn stream_action(state: StreamStateView) -> StreamActionView {
    match state {
        StreamStateView::Reading => StreamActionView::Read { max: READ_CHUNK as nat },
        StreamStateView::Echoing(chunk) => StreamActionView::Write(chunk),
        StreamStateView::Closed(outcome) => StreamActionView::Stop(outcome),
    }
}

impl StreamState {
    /// A handler for a stream that was just accepted: it starts by reading.
    pub fn new() -> (state: StreamState)
        ensures
            state@ == StreamStateView::Reading,
    {
        StreamState::Reading
    }

    /// What to ask of the transport in this state.
    pub fn action(&self) -> (action: StreamAction)
        ensures
            action@ == stream_action(self@),
    {
        match self {
            StreamState::Reading => StreamAction::Read { max: READ_CHUNK },
            StreamState::Echoing(chunk) => StreamAction::Write(chunk.clone()),
            StreamState::Closed(outcome) => StreamAction::Stop(*outcome),
        }
    }

    /// How the handler ended, once it is closed.
    pub fn outcome(&self) -> (outcome: Option<StreamOutcome>)
        ensures
            outcome == match self@ {
                StreamStateView::Closed(o) => Some(o),
                _ => None,
            },
    {
        match self {
            StreamState::Closed(outcome) => Some(*outcome),
            _ => None,
        }
    }
}

impl StreamError {
    /// The words in which the failure is reported.
    pub open spec fn spec_describe(self) -> Seq<char> {
        match self {
            StreamError::StreamWriteFailed => "stream write failed"@,
            StreamError::TransportError => "stream lost with its connection"@,
        }
    }

    /// The words in which the failure is reported.
    pub fn describe(self) -> (text: &'static str)
        ensures
            text@ == self.spec_describe(),
    {
        match self {
            StreamError::StreamWriteFailed => "stream write failed",
            StreamError::TransportError => "stream lost with its connection",
        }
    }
}

impl StreamOutcome {
    /// The outcome as the result a handler returns.
    pub open spec fn spec_result(self) -> Result<(), StreamError> {
        match self {
            StreamOutcome::Completed => Ok(()),
            StreamOutcome::Failed(error) => Err(error),
        }
    }

    /// The outcome as the result a handler returns.
    #[verifier::when_used_as_spec(spec_result)]
    pub fn result(self) -> (result: Result<(), StreamError>)
        ensures
            result == self.spec_result(),
    {
        match self {
            StreamOutcome::Completed => Ok(()),
            StreamOutcome::Failed(error) => Err(error),
        }
    }
}

impl Server {
    /// Takes one step of the echo loop of a stream: the handler in `state`
    /// learns of `event` and moves to the state that [`stream_step`] gives.
    pub fn handle_stream(state: StreamState, event: StreamEvent) -> (next: StreamState)
        ensures
            next@ == stream_step(state@, event@),
    {
        match state {
            StreamState::Reading => match event {
                StreamEvent::Data(chunk) => if chunk.len() == 0 {
                    StreamState::Closed(StreamOutcome::Completed)
                } else {
                    StreamState::Echoing(chunk)
                },
                StreamEvent::EndOfStream => StreamState::Closed(StreamOutcome::Completed),
                StreamEvent::ReadFailed => StreamState::Closed(
                    StreamOutcome::Failed(StreamError::TransportError),
                ),
                _ => StreamState::Reading,
            },
            StreamState::Echoing(chunk) => match event {
                StreamEvent::Written => StreamState::Reading,
                StreamEvent::WriteFailed => StreamState::Closed(
                    StreamOutcome::Failed(StreamError::StreamWriteFailed),
                ),
                _ => StreamState::Echoing(chunk),
            },
            StreamState::Closed(outcome) => StreamState::Closed(outcome),
        }
    }
}

/// The state a handler reaches from `state` when the transport reports
/// `events` one after the other.
pub open spec fn stream_run(state: StreamStateView, events: Seq<StreamEventView>) -> StreamStateView
    decreases events.len(),
{
    if events.len() == 0 {
        state
    } else {
        stream_step(stream_run(state, events.drop_last()), events.last())
    }
}

/// The bytes that a step from `state` on `event` takes in from the peer.
pub open spec fn step_received(state: StreamStateView, event: StreamEventView) -> Seq<u8> {
    match (state, event) {
        (StreamStateView::Reading, StreamEventView::Data(chunk)) => chunk,
        _ => Seq::empty(),
    }
}

/// The bytes that a step from `state` on `event` has sent back to the peer.
pub open spec fn step_echoed(state: StreamStateView, event: StreamEventView) -> Seq<u8> {
    match (state, event) {
        (StreamStateView::Echoing(chunk), StreamEventView::Written) => chunk,
        _ => Seq::empty(),
    }
}

/// All bytes taken in from the peer while going from `state` through `events`.
pub open spec fn stream_received(state: StreamStateView, events: Seq<StreamEventView>) -> Seq<u8>
    decreases events.len(),
{
    if events.len() == 0 {
        Seq::empty()
    } else {
        stream_received(state, events.drop_last()) + step_received(
            stream_run(state, events.drop_last()),
            events.last(),
        )
    }
}

/// All bytes sent back to the peer while going from `state` through `events`,
/// in the order in which their writes completed.
pub open spec fn stream_echoed(state: StreamStateView, events: Seq<StreamEventView>) -> Seq<u8>
    decreases events.len(),
{
    if events.len() == 0 {
        Seq::empty()
    } else {
        stream_echoed(state, events.drop_last()) + step_echoed(
            stream_run(state, events.drop_last()),
            events.last(),
        )
    }
}

/// The bytes of `chunks`, one chunk after the other.
pub open spec fn concat(chunks: Seq<Seq<u8>>) -> Seq<u8>
    decreases chunks.len(),
{
    if chunks.len() == 0 {
        Seq::empty()
    } else {
        concat(chunks.drop_last()) + chunks.last()
    }
}

/// What a transport reports that delivers `chunks` one by one and takes each
/// echo in full: for every chunk a read that returns it and a write that
/// completes.
pub open spec fn delivery(chunks: Seq<Seq<u8>>) -> Seq<StreamEventView>
    decreases chunks.len(),
{
    if chunks.len() == 0 {
        Seq::empty()
    } else {
        delivery(chunks.drop_last()).push(StreamEventView::Data(chunks.last())).push(
            StreamEventView::Written,
        )
    }
}

/// The bytes of the chunk that a handler in `state` holds and has not yet
/// seen written.
pub open spec fn in_flight(state: StreamStateView) -> Seq<u8> {
    match state {
        StreamStateView::Echoing(chunk) => chunk,
        _ => Seq::empty(),
    }
}

/// One more event extends a run by one step.
pub proof fn lemma_stream_run_push(
    state: StreamStateView,
    events: Seq<StreamEventView>,
    event: StreamEventView,
)
    ensures
        stream_run(state, events.push(event)) == stream_step(stream_run(state, events), event),
        stream_received(state, events.push(event)) == stream_received(state, events)
            + step_received(stream_run(state, events), event),
        stream_echoed(state, events.push(event)) == stream_echoed(state, events) + step_echoed(
            stream_run(state, events),
            event,
        ),
{
    assert(events.push(event).drop_last() =~= events);
}

/// A closed handler stays closed, with the outcome it closed with, whatever
/// is reported to it afterwards.
pub proof fn lemma_closed_is_final(outcome: StreamOutcome, events: Seq<StreamEventView>)
    ensures
        stream_run(StreamStateView::Closed(outcome), events) == StreamStateView::Closed(outcome),
        stream_echoed(StreamStateView::Closed(outcome), events) == Seq::<u8>::empty(),
    decreases events.len(),
{
    if events.len() > 0 {
        lemma_closed_is_final(outcome, events.drop_last());
    }
}

/// Nothing is echoed that was not received, and nothing is echoed twice or
/// out of order: whatever the transport reports to a fresh handler, the bytes
/// echoed so far are a prefix of the bytes received so far. Unless a write
/// failed, the two differ only by the chunk whose write is still under way,
/// so a handler that is reading or has closed otherwise has echoed exactly
/// what it received.
pub proof fn lemma_echo_follows_input(events: Seq<StreamEventView>)
    ensures
        stream_echoed(StreamStateView::Reading, events).is_prefix_of(
            stream_received(StreamStateView::Reading, events),
        ),
        stream_run(StreamStateView::Reading, events) != StreamStateView::Closed(
            StreamOutcome::Failed(StreamError::StreamWriteFailed),
        ) ==> stream_received(StreamStateView::Reading, events) == stream_echoed(
            StreamStateView::Reading,
            events,
        ) + in_flight(stream_run(StreamStateView::Reading, events)),
    decreases events.len(),
{
    let start = StreamStateView::Reading;
    if events.len() > 0 {
        let before = events.drop_last();
        lemma_echo_follows_input(before);
        let state = stream_run(start, before);
        let received = stream_received(start, before);
        let echoed = stream_echoed(start, before);
        if state == StreamStateView::Closed(StreamOutcome::Failed(StreamError::StreamWriteFailed)) {
            assert(stream_received(start, events) =~= received);
            assert(stream_echoed(start, events) =~= echoed);
        } else {
            let end = stream_run(start, events);
            if end != StreamStateView::Closed(
                StreamOutcome::Failed(StreamError::StreamWriteFailed),
            ) {
                assert(stream_received(start, events) =~= stream_echoed(start, events)
                    + in_flight(end));
            }
        }
    }
}

/// Delivering chunks, none of them empty, to a reading handler leaves it
/// reading, with every chunk echoed in the order of arrival.
pub proof fn lemma_delivery_is_echoed(chunks: Seq<Seq<u8>>)
    requires
        forall|i: int| 0 <= i < chunks.len() ==> (#[trigger] chunks[i]).len() > 0,
    ensures
        stream_run(StreamStateView::Reading, delivery(chunks)) == StreamStateView::Reading,
        stream_received(StreamStateView::Reading, delivery(chunks)) == concat(chunks),
        stream_echoed(StreamStateView::Reading, delivery(chunks)) == concat(chunks),
    decreases chunks.len(),
{
    let start = StreamStateView::Reading;
    if chunks.len() > 0 {
        let before = chunks.drop_last();
        let chunk = chunks.last();
        lemma_delivery_is_echoed(before);
        let read = delivery(before).push(StreamEventView::Data(chunk));
        lemma_stream_run_push(start, delivery(before), StreamEventView::Data(chunk));
        lemma_stream_run_push(start, read, StreamEventView::Written);
        assert(stream_run(start, read) == StreamStateView::Echoing(chunk));
        assert(stream_received(start, delivery(chunks)) =~= concat(chunks));
        assert(stream_echoed(start, delivery(chunks)) =~= concat(chunks));
    }
}

/// Echo correctness. A peer sends the bytes `concat(chunks)`, which reach a
/// fresh handler as the chunks given, none of them empty, and then finishes
/// its side. If every write completes, the handler closes with success, and
/// what it has sent back is exactly what the peer sent: nothing cut off,
/// nothing twice, nothing out of order. A payload that fits one read is the
/// case of a single chunk, an empty payload the case of none.
pub proof fn lemma_echo_correct(chunks: Seq<Seq<u8>>)
    requires
        forall|i: int| 0 <= i < chunks.len() ==> (#[trigger] chunks[i]).len() > 0,
    ensures
        stream_run(
            StreamStateView::Reading,
            delivery(chunks).push(StreamEventView::EndOfStream),
        ) == StreamStateView::Closed(StreamOutcome::Completed),
        stream_echoed(
            StreamStateView::Reading,
            delivery(chunks).push(StreamEventView::EndOfStream),
        ) == concat(chunks),
{
    lemma_delivery_is_echoed(chunks);
    lemma_stream_run_push(StreamStateView::Reading, delivery(chunks), StreamEventView::EndOfStream);
    assert(stream_echoed(
        StreamStateView::Reading,
        delivery(chunks).push(StreamEventView::EndOfStream),
    ) =~= concat(chunks));
}

} // verus!
