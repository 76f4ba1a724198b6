use quic_echo::server::Server;
use quic_echo::stream::{
    StreamAction, StreamError, StreamEvent, StreamOutcome, StreamState, READ_CHUNK,
};

/// Serves `chunks` to a fresh handler as a transport would that takes every
/// write, then ends the stream. Returns what was written and the last state.
fn serve(chunks: &[Vec<u8>]) -> (Vec<u8>, StreamState) {
    let mut state = StreamState::new();
    let mut written = Vec::new();
    let mut next = 0;
    for _ in 0..(2 * chunks.len() + 2) {
        let event = match state.action() {
            StreamAction::Read { max } => {
                assert_eq!(max, READ_CHUNK);
                if next < chunks.len() {
                    next += 1;
                    StreamEvent::Data(chunks[next - 1].clone())
                } else {
                    StreamEvent::EndOfStream
                }
            }
            StreamAction::Write(bytes) => {
                written.extend_from_slice(&bytes);
                StreamEvent::Written
            }
            StreamAction::Stop(_) => break,
        };
        state = Server::handle_stream(state, event);
    }
    (written, state)
}

#[test]
fn fresh_handler_reads_with_chunk_bound() {
    let state = StreamState::new();
    assert_eq!(state, StreamState::Reading);
    assert_eq!(state.action(), StreamAction::Read { max: 1024 });
    assert_eq!(READ_CHUNK, 1024);
    assert_eq!(state.outcome(), None);
}

#[test]
fn chunk_is_echoed_then_reading_resumes() {
    let state = Server::handle_stream(StreamState::new(), StreamEvent::Data(vec![1, 2, 3]));
    assert_eq!(state, StreamState::Echoing(vec![1, 2, 3]));
    assert_eq!(state.action(), StreamAction::Write(vec![1, 2, 3]));
    let state = Server::handle_stream(state, StreamEvent::Written);
    assert_eq!(state, StreamState::Reading);
}

#[test]
fn end_of_stream_closes_with_success() {
    let state = Server::handle_stream(StreamState::new(), StreamEvent::EndOfStream);
    assert_eq!(state, StreamState::Closed(StreamOutcome::Completed));
    assert_eq!(state.action(), StreamAction::Stop(StreamOutcome::Completed));
    assert_eq!(state.outcome(), Some(StreamOutcome::Completed));
    assert_eq!(StreamOutcome::Completed.result(), Ok(()));
}

#[test]
fn read_of_zero_bytes_closes_with_success() {
    let state = Server::handle_stream(StreamState::new(), StreamEvent::Data(Vec::new()));
    assert_eq!(state, StreamState::Closed(StreamOutcome::Completed));
}

#[test]
fn write_failure_closes_with_stream_write_failed() {
    let state = Server::handle_stream(StreamState::new(), StreamEvent::Data(vec![9]));
    let state = Server::handle_stream(state, StreamEvent::WriteFailed);
    let failed = StreamOutcome::Failed(StreamError::StreamWriteFailed);
    assert_eq!(state, StreamState::Closed(failed));
    assert_eq!(state.action(), StreamAction::Stop(failed));
    assert_eq!(failed.result(), Err(StreamError::StreamWriteFailed));
}

#[test]
fn read_failure_closes_with_transport_error() {
    let state = Server::handle_stream(StreamState::new(), StreamEvent::ReadFailed);
    let failed = StreamOutcome::Failed(StreamError::TransportError);
    assert_eq!(state, StreamState::Closed(failed));
    assert_eq!(failed.result(), Err(StreamError::TransportError));
}

#[test]
fn closed_handler_stays_closed() {
    let closed = StreamState::Closed(StreamOutcome::Completed);
    for event in [
        StreamEvent::Data(vec![1]),
        StreamEvent::EndOfStream,
        StreamEvent::ReadFailed,
        StreamEvent::Written,
        StreamEvent::WriteFailed,
    ] {
        assert_eq!(Server::handle_stream(closed.clone(), event), closed);
    }
}

#[test]
fn events_that_answer_nothing_are_ignored() {
    let reading = StreamState::Reading;
    assert_eq!(Server::handle_stream(reading.clone(), StreamEvent::Written), reading);
    assert_eq!(Server::handle_stream(reading.clone(), StreamEvent::WriteFailed), reading);
    let echoing = StreamState::Echoing(vec![4, 5]);
    assert_eq!(Server::handle_stream(echoing.clone(), StreamEvent::Data(vec![6])), echoing);
    assert_eq!(Server::handle_stream(echoing.clone(), StreamEvent::EndOfStream), echoing);
    assert_eq!(Server::handle_stream(echoing.clone(), StreamEvent::ReadFailed), echoing);
}

#[test]
fn short_payload_comes_back_unchanged() {
    let payload = b"Hello, QUIC server!".to_vec();
    let (written, state) = serve(&[payload.clone()]);
    assert_eq!(written, payload);
    assert_eq!(state, StreamState::Closed(StreamOutcome::Completed));
}

#[test]
fn payload_of_exactly_one_chunk_comes_back_unchanged() {
    let payload: Vec<u8> = (0..1024u32).map(|i| (i % 251) as u8).collect();
    let (written, state) = serve(&[payload.clone()]);
    assert_eq!(written, payload);
    assert_eq!(state, StreamState::Closed(StreamOutcome::Completed));
}

#[test]
fn empty_payload_echoes_nothing() {
    let (written, state) = serve(&[]);
    assert_eq!(written, Vec::<u8>::new());
    assert_eq!(state, StreamState::Closed(StreamOutcome::Completed));
}

#[test]
fn long_payload_is_echoed_chunk_by_chunk() {
    let payload: Vec<u8> = (0..3000u32).map(|i| (i % 253) as u8).collect();
    let chunks: Vec<Vec<u8>> = payload.chunks(1024).map(|c| c.to_vec()).collect();
    assert_eq!(chunks.len(), 3);
    let (written, state) = serve(&chunks);
    assert_eq!(written, payload);
    assert_eq!(state, StreamState::Closed(StreamOutcome::Completed));
}

#[test]
fn chunk_boundaries_are_kept() {
    let mut state = StreamState::new();
    let mut writes = Vec::new();
    for chunk in [vec![1u8, 2], vec![3u8], vec![4u8, 5, 6]] {
        state = Server::handle_stream(state, StreamEvent::Data(chunk));
        match state.action() {
            StreamAction::Write(bytes) => writes.push(bytes),
            other => panic!("expected a write, got {:?}", other),
        }
        state = Server::handle_stream(state, StreamEvent::Written);
    }
    assert_eq!(writes, vec![vec![1u8, 2], vec![3u8], vec![4u8, 5, 6]]);
}

#[test]
fn failed_write_stops_the_echo_after_what_was_written() {
    let mut state = StreamState::new();
    state = Server::handle_stream(state, StreamEvent::Data(vec![1, 2]));
    state = Server::handle_stream(state, StreamEvent::Written);
    state = Server::handle_stream(state, StreamEvent::Data(vec![3, 4]));
    state = Server::handle_stream(state, StreamEvent::WriteFailed);
    state = Server::handle_stream(state, StreamEvent::Data(vec![5, 6]));
    assert_eq!(
        state,
        StreamState::Closed(StreamOutcome::Failed(StreamError::StreamWriteFailed))
    );
}
