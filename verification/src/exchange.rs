//! Client and server seen together: one message, its echo, and the close.

use crate::address::SocketAddress;
use crate::client::{
    brings_echo, client_action, client_run, close_reason, joined, lemma_client_exchange,
    responses, smooth_exchange, smooth_sending, ClientActionView, ClientStateView, CLOSE_CODE,
};
use crate::stream::{
    concat, delivery, lemma_echo_correct, stream_echoed, stream_run, StreamEventView,
    StreamOutcome, StreamStateView,
};
use vstd::prelude::*;

verus! {

/// Graceful shutdown. A client sends a message that is not empty and
/// finishes its sending side. The message reaches the server's handler as
/// the chunks given, none of them empty, followed by the end of the stream,
/// and every write of the handler completes. Then the handler closes with
/// success, without an error, having sent back the message. What it has
/// sent back reaches the client in the reads given, none of them empty, in
/// whatever pieces. The client goes on reading until the last of them has
/// come; only then does it ask for the connection to be closed, with
/// [`CLOSE_CODE`] and the reason `Done`, and it is finished with the message
/// as its echo: it has the whole echo before it closes.
pub proof fn lemma_graceful_shutdown(
    server_addr: SocketAddress,
    server_name: Seq<char>,
    chunks: Seq<Seq<u8>>,
    reads: Seq<Seq<u8>>,
)
    requires
        forall|i: int| 0 <= i < chunks.len() ==> (#[trigger] chunks[i]).len() > 0,
        forall|i: int| 0 <= i < reads.len() ==> (#[trigger] reads[i]).len() > 0,
        concat(chunks).len() > 0,
        joined(reads) == concat(chunks),
    ensures
        ({
            let message = concat(chunks);
            let served = delivery(chunks).push(StreamEventView::EndOfStream);
            let start = ClientStateView::Connecting { server_addr, server_name, message };
            let awaiting = smooth_sending() + responses(reads.drop_last());
            let closing = smooth_sending() + responses(reads);
            &&& stream_run(StreamStateView::Reading, served) == StreamStateView::Closed(
                StreamOutcome::Completed,
            )
            &&& stream_echoed(StreamStateView::Reading, served) == message
            &&& client_run(start, awaiting) is AwaitingResponse
            &&& client_run(start, closing) == (ClientStateView::Closing { response: message })
            &&& client_action(client_run(start, closing)) == (ClientActionView::Close {
                code: CLOSE_CODE,
                reason: close_reason(),
            })
            &&& client_run(start, smooth_exchange(reads)) == (ClientStateView::Finished {
                response: message,
            })
        }),
{
    let message = concat(chunks);
    lemma_echo_correct(chunks);
    assert(reads.len() > 0);
    assert(joined(reads) == joined(reads.drop_last()) + reads.last());
    assert(brings_echo(reads, message.len()));
    lemma_client_exchange(server_addr, server_name, message, reads);
}

} // verus!
