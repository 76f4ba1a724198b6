//! The client role: one connection, one stream, one message and its echo,
//! then an orderly close.

use crate::address::{IpAddress, SocketAddress, DEFAULT_SERVER_PORT};
use crate::server::default_server_addr;
use vstd::prelude::*;

verus! {

/// Most bytes of the echo that the client takes in one read.
pub const RESPONSE_LIMIT: usize = 1024;

/// Code with which the client closes the connection: success.
pub const CLOSE_CODE: u32 = 0;

/// The echo client: where it binds, whom it calls, and under which name it
/// expects the server to identify itself.
#[derive(Clone, Debug, PartialEq, Eq)]
pub struct Client {
    pub client_addr: SocketAddress,
    pub server_addr: SocketAddress,
    pub server_name: String,
}

/// Model of [`Client`].
pub struct ClientView {
    pub client_addr: SocketAddress,
    pub server_addr: SocketAddress,
    pub server_name: Seq<char>,
}

impl View for Client {
    type V = ClientView;

    open spec fn view(&self) -> ClientView {
        ClientView {
            client_addr: self.client_addr,
            server_addr: self.server_addr,
            server_name: self.server_name@,
        }
    }
}

/// The address a client binds unless told otherwise: `127.0.0.1`, with the
/// port left to the system.
pub open spec fn default_client_addr() -> SocketAddress {
    SocketAddress { ip: IpAddress::V4(127, 0, 0, 1), port: 0 }
}

/// The name a client expects of its server unless told otherwise.
pub open spec fn default_server_name() -> Seq<char> {
    "localhost"@
}

/// The message a client sends unless given another: the bytes of
/// `Hello, QUIC server!`.
pub open spec fn hello_message() -> Seq<u8> {
    seq![
        72u8, 101u8, 108u8, 108u8, 111u8, 44u8, 32u8, 81u8, 85u8, 73u8, 67u8, 32u8, 115u8, 101u8,
        114u8, 118u8, 101u8, 114u8, 33u8,
    ]
}

/// The reason a client gives when it closes the connection: the bytes of
/// `Done`.
pub open spec fn close_reason() -> Seq<u8> {
    seq![68u8, 111u8, 110u8, 101u8]
}

/// Why a client run failed. Each is final for the run: nothing is retried.
#[derive(Clone, Copy, Debug, PartialEq, Eq, Structural)]
pub enum ClientError {
    /// The connection could not be established.
    ConnectFailed,
    /// The stream could not be opened.
    StreamOpenFailed,
    /// The message could not be sent, or the sending side not finished.
    SendFailed,
    /// The echo did not come back whole: a read returned no bytes, the
    /// stream ended before as many bytes had come as were sent, or a read
    /// failed.
    IncompleteResponse,
}

/// Where a client run stands.
#[derive(Clone, Debug, PartialEq, Eq)]
pub enum ClientState {
    /// Waiting for the handshake with the server to complete.
    Connecting { server_addr: SocketAddress, server_name: String, message: Vec<u8> },
    /// Waiting for the one bidirectional stream to open.
    OpeningStream { message: Vec<u8> },
    /// Waiting for the message to be written.
    Sending { message: Vec<u8> },
    /// Waiting for the sending side to be finished, which tells the server
    /// that no more data comes; `sent` bytes were written.
    Finishing { sent: usize },
    /// Waiting for the echo, of which `received` has come so far; it is
    /// whole when it has as many bytes as were sent, which is `expected`.
    AwaitingResponse { expected: usize, received: Vec<u8> },
    /// The whole echo is here; waiting for the connection to be closed.
    Closing { response: Vec<u8> },
    /// Done, with the echo that came back.
    Finished { response: Vec<u8> },
    /// Given up.
    Failed(ClientError),
}

/// What the transport reports to a client run.
#[derive(Clone, Debug, PartialEq, Eq)]
pub enum ClientEvent {
    /// The handshake completed.
    Connected,
    /// The stream is open.
    StreamOpened,
    /// The message was written in full.
    Sent,
    /// The sending side is finished.
    SendFinished,
    /// A read returned these bytes.
    Response(Vec<u8>),
    /// A read found the server's side finished.
    EndOfStream,
    /// The connection is closed.
    Closed,
    /// What was asked for failed.
    Failed,
}

/// What a client run asks of the transport.
#[derive(Clone, Debug, PartialEq, Eq)]
pub enum ClientAction {
    /// Connect to the server at `server_addr`, which must identify itself as
    /// `server_name`.
    Connect { server_addr: SocketAddress, server_name: String },
    /// Open a bidirectional stream.
    OpenStream,
    /// Write all of these bytes.
    Send(Vec<u8>),
    /// Finish the sending side.
    FinishSend,
    /// Read at most `max` bytes.
    ReadResponse { max: usize },
    /// Close the connection with this code and reason.
    Close { code: u32, reason: Vec<u8> },
    /// Nothing more: the run is over.
    Stop,
}

/// Model of [`ClientState`].
pub enum ClientStateView {
    Connecting { server_addr: SocketAddress, server_name: Seq<char>, message: Seq<u8> },
    OpeningStream { message: Seq<u8> },
    Sending { message: Seq<u8> },
    Finishing { sent: nat },
    AwaitingResponse { expected: nat, received: Seq<u8> },
    Closing { response: Seq<u8> },
    Finished { response: Seq<u8> },
    Failed(ClientError),
}

/// Model of [`ClientEvent`].
pub enum ClientEventView {
    Connected,
    StreamOpened,
    Sent,
    SendFinished,
    Response(Seq<u8>),
    EndOfStream,
    Closed,
    Failed,
}

/// Model of [`ClientAction`].
pub enum ClientActionView {
    Connect { server_addr: SocketAddress, server_name: Seq<char> },
    OpenStream,
    Send(Seq<u8>),
    FinishSend,
    ReadResponse { max: nat },
    Close { code: u32, reason: Seq<u8> },
    Stop,
}

impl View for ClientState {
    type V = ClientStateView;

    open spec fn view(&self) -> ClientStateView {
        match self {
            ClientState::Connecting { server_addr, server_name, message } => {
                ClientStateView::Connecting {
                    server_addr: *server_addr,
                    server_name: server_name@,
                    message: message@,
                }
            },
            ClientState::OpeningStream { message } => ClientStateView::OpeningStream {
                message: message@,
            },
            ClientState::Sending { message } => ClientStateView::Sending { message: message@ },
            ClientState::Finishing { sent } => ClientStateView::Finishing { sent: *sent as nat },
            ClientState::AwaitingResponse { expected, received } => {
                ClientStateView::AwaitingResponse {
                    expected: *expected as nat,
                    received: received@,
                }
            },
            ClientState::Closing { response } => ClientStateView::Closing { response: response@ },
            ClientState::Finished { response } => ClientStateView::Finished {
                response: response@,
            },
            ClientState::Failed(error) => ClientStateView::Failed(*error),
        }
    }
}

impl View for ClientEvent {
    type V = ClientEventView;

    open spec fn view(&self) -> ClientEventView {
        match self {
            ClientEvent::Connected => ClientEventView::Connected,
            ClientEvent::StreamOpened => ClientEventView::StreamOpened,
            ClientEvent::Sent => ClientEventView::Sent,
            ClientEvent::SendFinished => ClientEventView::SendFinished,
            ClientEvent::Response(bytes) => ClientEventView::Response(bytes@),
            ClientEvent::EndOfStream => ClientEventView::EndOfStream,
            ClientEvent::Closed => ClientEventView::Closed,
            ClientEvent::Failed => ClientEventView::Failed,
        }
    }
}

impl View for ClientAction {
    type V = ClientActionView;

    open spec fn view(&self) -> ClientActionView {
        match self {
            ClientAction::Connect { server_addr, server_name } => ClientActionView::Connect {
                server_addr: *server_addr,
                server_name: server_name@,
            },
            ClientAction::OpenStream => ClientActionView::OpenStream,
            ClientAction::Send(bytes) => ClientActionView::Send(bytes@),
            ClientAction::FinishSend => ClientActionView::FinishSend,
            ClientAction::ReadResponse { max } => ClientActionView::ReadResponse {
                max: *max as nat,
            },
            ClientAction::Close { code, reason } => ClientActionView::Close {
                code: *code,
                reason: reason@,
            },
            ClientAction::Stop => ClientActionView::Stop,
        }
    }
}

/// The state that follows `state` when the transport reports `event`.
///
/// The run goes through its phases in order: connect, open the stream, send
/// the message, finish the sending side, read the echo, close. Each phase
/// has its own failure. The echo is read until it is whole, that is until as
/// many bytes have come as were sent: a read that leaves it short is
/// followed by another. A read of no bytes, the end of the stream and a
/// failed read all come before the echo is whole, and are failures. Closing
/// cannot fail. An event that does not answer what the state is waiting for
/// changes nothing, and a run that is over stays as it is.
pub open spec fn client_step(state: ClientStateView, event: ClientEventView) -> ClientStateView {
    match (state, event) {
        (
            ClientStateView::Connecting { server_addr, server_name, message },
            ClientEventView::Connected,
        ) => ClientStateView::OpeningStream { message },
        (ClientStateView::Connecting { .. }, ClientEventView::Failed) => ClientStateView::Failed(
            ClientError::ConnectFailed,
        ),
        (ClientStateView::OpeningStream { message }, ClientEventView::StreamOpened) => {
            ClientStateView::Sending { message }
        },
        (ClientStateView::OpeningStream { .. }, ClientEventView::Failed) => {
            ClientStateView::Failed(ClientError::StreamOpenFailed)
        },
        (ClientStateView::Sending { message }, ClientEventView::Sent) => {
            ClientStateView::Finishing { sent: message.len() }
        },
        (ClientStateView::Sending { .. }, ClientEventView::Failed) => ClientStateView::Failed(
            ClientError::SendFailed,
        ),
        (ClientStateView::Finishing { sent }, ClientEventView::SendFinished) => {
            ClientStateView::AwaitingResponse { expected: sent, received: Seq::empty() }
        },
        (ClientStateView::Finishing { .. }, ClientEventView::Failed) => ClientStateView::Failed(
            ClientError::SendFailed,
        ),
        (
            ClientStateView::AwaitingResponse { expected, received },
            ClientEventView::Response(bytes),
        ) => if bytes.len() == 0 {
            ClientStateView::Failed(ClientError::IncompleteResponse)
        } else if (received + bytes).len() >= expected {
            ClientStateView::Closing { response: received + bytes }
        } else {
            ClientStateView::AwaitingResponse { expected, received: received + bytes }
        },
        (ClientStateView::AwaitingResponse { .. }, ClientEventView::EndOfStream) => {
            ClientStateView::Failed(ClientError::IncompleteResponse)
        },
        (ClientStateView::AwaitingResponse { .. }, ClientEventView::Failed) => {
            ClientStateView::Failed(ClientError::IncompleteResponse)
        },
        (ClientStateView::Closing { response }, ClientEventView::Closed) => {
            ClientStateView::Finished { response }
        },
        _ => state,
    }
}

/// What a client run in `state` is waiting for the transport to do.
pub open spec fn client_action(state: ClientStateView) -> ClientActionView {
    match state {
        ClientStateView::Connecting { server_addr, server_name, message } => {
            ClientActionView::Connect { server_addr, server_name }
        },
        ClientStateView::OpeningStream { .. } => ClientActionView::OpenStream,
        ClientStateView::Sending { message } => ClientActionView::Send(message),
        ClientStateView::Finishing { .. } => ClientActionView::FinishSend,
        ClientStateView::AwaitingResponse { .. } => ClientActionView::ReadResponse {
            max: RESPONSE_LIMIT as nat,
        },
        ClientStateView::Closing { .. } => ClientActionView::Close {
            code: CLOSE_CODE,
            reason: close_reason(),
        },
        ClientStateView::Finished { .. } => ClientActionView::Stop,
        ClientStateView::Failed(_) => ClientActionView::Stop,
    }
}

/// What a run that stands in `state` has come to: `None` while it is under
/// way, then the echo or the failure.
pub open spec fn client_result(state: ClientStateView) -> Option<Result<Seq<u8>, ClientError>> {
    match state {
        ClientStateView::Finished { response } => Some(Ok(response)),
        ClientStateView::Failed(error) => Some(Err(error)),
        _ => None,
    }
}

/// Model of what a run has come to.
pub open spec fn client_result_view(result: Option<Result<Vec<u8>, ClientError>>) -> Option<
    Result<Seq<u8>, ClientError>,
> {
    match result {
        Some(Ok(response)) => Some(Ok(response@)),
        Some(Err(error)) => Some(Err(error)),
        None => None,
    }
}

impl ClientError {
    /// The words in which the failure is reported.
    pub open spec fn spec_describe(self) -> Seq<char> {
        match self {
            ClientError::ConnectFailed => "connecting to the server failed"@,
            ClientError::StreamOpenFailed => "opening the stream failed"@,
            ClientError::SendFailed => "sending the message failed"@,
            ClientError::IncompleteResponse => "no response from the server"@,
        }
    }

    /// The words in which the failure is reported.
    pub fn describe(self) -> (text: &'static str)
        ensures
            text@ == self.spec_describe(),
    {
        match self {
            ClientError::ConnectFailed => "connecting to the server failed",
            ClientError::StreamOpenFailed => "opening the stream failed",
            ClientError::SendFailed => "sending the message failed",
            ClientError::IncompleteResponse => "no response from the server",
        }
    }
}

/// The bytes of `Hello, QUIC server!`.
pub fn hello() -> (message: Vec<u8>)
    ensures
        message@ == hello_message(),
{
    let message: Vec<u8> = vec![
        72u8, 101u8, 108u8, 108u8, 111u8, 44u8, 32u8, 81u8, 85u8, 73u8, 67u8, 32u8, 115u8, 101u8,
        114u8, 118u8, 101u8, 114u8, 33u8,
    ];
    assert(message@ =~= hello_message());
    message
}

impl ClientState {
    /// What to ask of the transport in this state.
    pub fn action(&self) -> (action: ClientAction)
        ensures
            action@ == client_action(self@),
    {
        match self {
            ClientState::Connecting { server_addr, server_name, message } => {
                ClientAction::Connect {
                    server_addr: *server_addr,
                    server_name: server_name.clone(),
                }
            },
            ClientState::OpeningStream { .. } => ClientAction::OpenStream,
            ClientState::Sending { message } => ClientAction::Send(message.clone()),
            ClientState::Finishing { .. } => ClientAction::FinishSend,
            ClientState::AwaitingResponse { .. } => ClientAction::ReadResponse {
                max: RESPONSE_LIMIT,
            },
            ClientState::Closing { .. } => {
                let reason: Vec<u8> = vec![68u8, 111u8, 110u8, 101u8];
                assert(reason@ =~= close_reason());
                ClientAction::Close { code: CLOSE_CODE, reason }
            },
            ClientState::Finished { .. } => ClientAction::Stop,
            ClientState::Failed(_) => ClientAction::Stop,
        }
    }

    /// What the run has come to: `None` while it is under way, then the echo
    /// or the failure.
    pub fn into_result(self) -> (result: Option<Result<Vec<u8>, ClientError>>)
        ensures
            client_result_view(result) == client_result(self@),
    {
        match self {
            ClientState::Finished { response } => Some(Ok(response)),
            ClientState::Failed(error) => Some(Err(error)),
            _ => None,
        }
    }
}

impl Client {
    /// A client with the default addresses and server name.
    pub fn new() -> (client: Client)
        ensures
            client@ == (ClientView {
                client_addr: default_client_addr(),
                server_addr: default_server_addr(),
                server_name: default_server_name(),
            }),
    {
        Client {
            client_addr: SocketAddress::new(IpAddress::localhost(), 0),
            server_addr: SocketAddress::new(IpAddress::localhost(), DEFAULT_SERVER_PORT),
            server_name: "localhost".to_owned(),
        }
    }

    /// A client that binds `client_addr` and calls the server at
    /// `server_addr`, which must identify itself as `server_name`.
    pub fn with_args(
        client_addr: SocketAddress,
        server_addr: SocketAddress,
        server_name: &str,
    ) -> (client: Client)
        ensures
            client@ == (ClientView { client_addr, server_addr, server_name: server_name@ }),
    {
        Client { client_addr, server_addr, server_name: server_name.to_owned() }
    }

    /// Begins a run that sends `Hello, QUIC server!`: the run starts by
    /// connecting to this client's server.
    pub fn connect_to_server(&self) -> (state: ClientState)
        ensures
            state@ == (ClientStateView::Connecting {
                server_addr: self.server_addr,
                server_name: self.server_name@,
                message: hello_message(),
            }),
    {
        self.connect_with_message(hello())
    }

    /// Begins a run that sends `message`: the run starts by connecting to
    /// this client's server.
    pub fn connect_with_message(&self, message: Vec<u8>) -> (state: ClientState)
        ensures
            state@ == (ClientStateView::Connecting {
                server_addr: self.server_addr,
                server_name: self.server_name@,
                message: message@,
            }),
    {
        ClientState::Connecting {
            server_addr: self.server_addr,
            server_name: self.server_name.clone(),
            message,
        }
    }

    /// Takes one step of a client run: the run in `state` learns of `event`
    /// and moves to the state that [`client_step`] gives.
    pub fn handle_client_session(state: ClientState, event: ClientEvent) -> (next: ClientState)
        ensures
            next@ == client_step(state@, event@),
    {
        match state {
            ClientState::Connecting { server_addr, server_name, message } => match event {
                ClientEvent::Connected => ClientState::OpeningStream { message },
                ClientEvent::Failed => ClientState::Failed(ClientError::ConnectFailed),
                _ => ClientState::Connecting { server_addr, server_name, message },
            },
            ClientState::OpeningStream { message } => match event {
                ClientEvent::StreamOpened => ClientState::Sending { message },
                ClientEvent::Failed => ClientState::Failed(ClientError::StreamOpenFailed),
                _ => ClientState::OpeningStream { message },
            },
            ClientState::Sending { message } => match event {
                ClientEvent::Sent => ClientState::Finishing { sent: message.len() },
                ClientEvent::Failed => ClientState::Failed(ClientError::SendFailed),
                _ => ClientState::Sending { message },
            },
            ClientState::Finishing { sent } => match event {
                ClientEvent::SendFinished => ClientState::AwaitingResponse {
                    expected: sent,
                    received: Vec::new(),
                },
                ClientEvent::Failed => ClientState::Failed(ClientError::SendFailed),
                _ => ClientState::Finishing { sent },
            },
            ClientState::AwaitingResponse { expected, received } => match event {
                ClientEvent::Response(bytes) => if bytes.len() == 0 {
                    ClientState::Failed(ClientError::IncompleteResponse)
                } else {
                    let mut received = received;
                    let mut bytes = bytes;
                    received.append(&mut bytes);
                    if received.len() >= expected {
                        ClientState::Closing { response: received }
                    } else {
                        ClientState::AwaitingResponse { expected, received }
                    }
                },
                ClientEvent::EndOfStream | ClientEvent::Failed => ClientState::Failed(
                    ClientError::IncompleteResponse,
                ),
                _ => ClientState::AwaitingResponse { expected, received },
            },
            ClientState::Closing { response } => match event {
                ClientEvent::Closed => ClientState::Finished { response },
                _ => ClientState::Closing { response },
            },
            ClientState::Finished { response } => ClientState::Finished { response },
            ClientState::Failed(error) => ClientState::Failed(error),
        }
    }
}

/// The state a client run reaches from `state` when the transport reports
/// `events` one after the other.
pub open spec fn client_run(state: ClientStateView, events: Seq<ClientEventView>) -> ClientStateView
    decreases events.len(),
{
    if events.len() == 0 {
        state
    } else {
        client_step(client_run(state, events.drop_last()), events.last())
    }
}

/// The bytes of `reads`, one read after the other.
pub open spec fn joined(reads: Seq<Seq<u8>>) -> Seq<u8>
    decreases reads.len(),
{
    if reads.len() == 0 {
        Seq::empty()
    } else {
        joined(reads.drop_last()) + reads.last()
    }
}

/// What the transport reports of `reads`: each as a read that returned it.
pub open spec fn responses(reads: Seq<Seq<u8>>) -> Seq<ClientEventView> {
    Seq::new(reads.len(), |i: int| ClientEventView::Response(reads[i]))
}

/// What the transport reports to a run up to the point where the echo is
/// awaited, when nothing goes wrong.
pub open spec fn smooth_sending() -> Seq<ClientEventView> {
    seq![
        ClientEventView::Connected,
        ClientEventView::StreamOpened,
        ClientEventView::Sent,
        ClientEventView::SendFinished,
    ]
}

/// What the transport reports to a run in which nothing goes wrong and the
/// echo comes in `reads`.
pub open spec fn smooth_exchange(reads: Seq<Seq<u8>>) -> Seq<ClientEventView> {
    (smooth_sending() + responses(reads)).push(ClientEventView::Closed)
}

/// Whether `reads` bring an echo of `sent` bytes and no read beyond it: none
/// of them is empty, and the echo is whole with the last of them and not
/// before.
pub open spec fn brings_echo(reads: Seq<Seq<u8>>, sent: nat) -> bool {
    &&& reads.len() > 0
    &&& forall|i: int| 0 <= i < reads.len() ==> (#[trigger] reads[i]).len() > 0
    &&& joined(reads.drop_last()).len() < sent || reads.len() == 1
    &&& joined(reads).len() >= sent
}

/// One more event extends a run by one step.
pub proof fn lemma_client_run_push(
    state: ClientStateView,
    events: Seq<ClientEventView>,
    event: ClientEventView,
)
    ensures
        client_run(state, events.push(event)) == client_step(client_run(state, events), event),
{
    assert(events.push(event).drop_last() =~= events);
}

/// A run over two stretches of events is the run over the second, begun
/// where the first ended.
pub proof fn lemma_client_run_append(
    state: ClientStateView,
    first: Seq<ClientEventView>,
    second: Seq<ClientEventView>,
)
    ensures
        client_run(state, first + second) == client_run(client_run(state, first), second),
    decreases second.len(),
{
    if second.len() == 0 {
        assert(first + second =~= first);
    } else {
        lemma_client_run_append(state, first, second.drop_last());
        assert((first + second).drop_last() =~= first + second.drop_last());
    }
}

/// A run that is over stays as it is, whatever is reported to it: a failure
/// is final, and nothing is retried.
pub proof fn lemma_client_end_is_final(state: ClientStateView, events: Seq<ClientEventView>)
    requires
        state is Finished || state is Failed,
    ensures
        client_run(state, events) == state,
    decreases events.len(),
{
    if events.len() > 0 {
        lemma_client_end_is_final(state, events.drop_last());
    }
}

/// A run in which nothing goes wrong comes to await the echo: it connects to
/// the server at `server_addr` under the name `server_name`, opens a stream,
/// sends the message and finishes its sending side, in this order, and then
/// reads, expecting as many bytes as it sent.
pub proof fn lemma_client_sends_in_order(
    server_addr: SocketAddress,
    server_name: Seq<char>,
    message: Seq<u8>,
)
    ensures
        ({
            let start = ClientStateView::Connecting { server_addr, server_name, message };
            let events = smooth_sending();
            &&& client_action(start) == (ClientActionView::Connect { server_addr, server_name })
            &&& client_action(client_run(start, events.take(1))) == ClientActionView::OpenStream
            &&& client_action(client_run(start, events.take(2))) == ClientActionView::Send(message)
            &&& client_action(client_run(start, events.take(3))) == ClientActionView::FinishSend
            &&& client_run(start, events) == (ClientStateView::AwaitingResponse {
                expected: message.len(),
                received: Seq::empty(),
            })
            &&& client_action(client_run(start, events)) == (ClientActionView::ReadResponse {
                max: RESPONSE_LIMIT as nat,
            })
        }),
{
    let start = ClientStateView::Connecting { server_addr, server_name, message };
    let events = smooth_sending();
    let e0 = Seq::<ClientEventView>::empty();
    assert(client_run(start, e0) == start);
    lemma_client_run_push(start, e0, events[0]);
    assert(events.take(1) =~= e0.push(events[0]));
    lemma_client_run_push(start, events.take(1), events[1]);
    assert(events.take(2) =~= events.take(1).push(events[1]));
    lemma_client_run_push(start, events.take(2), events[2]);
    assert(events.take(3) =~= events.take(2).push(events[2]));
    lemma_client_run_push(start, events.take(3), events[3]);
    assert(events =~= events.take(3).push(events[3]));
}

/// While the echo is short the run goes on reading. Reads, none of them
/// empty, that together bring fewer bytes than were sent leave a run that
/// awaits the echo awaiting it, with what has come so far, and asking for
/// another read.
pub proof fn lemma_client_reads_on(expected: nat, received: Seq<u8>, reads: Seq<Seq<u8>>)
    requires
        forall|i: int| 0 <= i < reads.len() ==> (#[trigger] reads[i]).len() > 0,
        (received + joined(reads)).len() < expected,
    ensures
        client_run(ClientStateView::AwaitingResponse { expected, received }, responses(reads))
            == (ClientStateView::AwaitingResponse {
            expected,
            received: received + joined(reads),
        }),
    decreases reads.len(),
{
    let start = ClientStateView::AwaitingResponse { expected, received };
    if reads.len() == 0 {
        assert(received + joined(reads) =~= received);
    } else {
        let before = reads.drop_last();
        lemma_client_reads_on(expected, received, before);
        assert(responses(reads).drop_last() =~= responses(before));
        assert(responses(reads).last() == ClientEventView::Response(reads.last()));
        assert((received + joined(before)) + reads.last() =~= received + joined(reads));
    }
}

/// A run in which nothing goes wrong reads the whole echo and then closes.
/// Let the echo come in reads that bring it whole with the last of them.
/// Then the run, having sent its message, reads until the last of them has
/// come, asks only then for the connection to be closed, with
/// [`CLOSE_CODE`] and the reason `Done`, and is finished with all that was
/// read as its echo.
pub proof fn lemma_client_exchange(
    server_addr: SocketAddress,
    server_name: Seq<char>,
    message: Seq<u8>,
    reads: Seq<Seq<u8>>,
)
    requires
        brings_echo(reads, message.len()),
    ensures
        ({
            let start = ClientStateView::Connecting { server_addr, server_name, message };
            let awaiting = smooth_sending() + responses(reads.drop_last());
            let closing = smooth_sending() + responses(reads);
            &&& client_run(start, awaiting) == (ClientStateView::AwaitingResponse {
                expected: message.len(),
                received: joined(reads.drop_last()),
            })
            &&& client_run(start, closing) == (ClientStateView::Closing {
                response: joined(reads),
            })
            &&& client_action(client_run(start, closing)) == (ClientActionView::Close {
                code: CLOSE_CODE,
                reason: close_reason(),
            })
            &&& client_run(start, smooth_exchange(reads)) == (ClientStateView::Finished {
                response: joined(reads),
            })
            &&& client_action(client_run(start, smooth_exchange(reads))) == ClientActionView::Stop
        }),
{
    let start = ClientStateView::Connecting { server_addr, server_name, message };
    let expected = message.len();
    let empty = Seq::<u8>::empty();
    let fresh = ClientStateView::AwaitingResponse { expected, received: empty };
    let before = reads.drop_last();
    lemma_client_sends_in_order(server_addr, server_name, message);
    lemma_client_run_append(start, smooth_sending(), responses(before));
    lemma_client_run_append(start, smooth_sending(), responses(reads));
    assert(responses(reads).drop_last() =~= responses(before));
    assert(responses(reads).last() == ClientEventView::Response(reads.last()));
    if reads.len() == 1 {
        assert(before =~= Seq::<Seq<u8>>::empty());
        assert(joined(before) =~= empty);
        assert(client_run(fresh, responses(before)) == fresh);
    } else {
        assert(empty + joined(before) =~= joined(before));
        lemma_client_reads_on(expected, empty, before);
    }
    assert(client_run(fresh, responses(before)) == (ClientStateView::AwaitingResponse {
        expected,
        received: joined(before),
    }));
    assert(joined(before) + reads.last() =~= joined(reads));
    lemma_client_run_push(start, smooth_sending() + responses(reads), ClientEventView::Closed);
}

/// How far a run has come: the number of the phase that `state` stands in,
/// with a run that is finished beyond the last. For a run that failed it is
/// the phase in which it failed, and of the two phases in which sending can
/// fail the earlier.
pub open spec fn client_phase(state: ClientStateView) -> nat {
    match state {
        ClientStateView::Connecting { .. } => 0,
        ClientStateView::OpeningStream { .. } => 1,
        ClientStateView::Sending { .. } => 2,
        ClientStateView::Finishing { .. } => 3,
        ClientStateView::AwaitingResponse { .. } => 4,
        ClientStateView::Closing { .. } => 5,
        ClientStateView::Finished { .. } => 6,
        ClientStateView::Failed(ClientError::ConnectFailed) => 0,
        ClientStateView::Failed(ClientError::StreamOpenFailed) => 1,
        ClientStateView::Failed(ClientError::SendFailed) => 2,
        ClientStateView::Failed(ClientError::IncompleteResponse) => 4,
    }
}

/// No stream without a connection, and no close without the whole echo.
/// Whatever the transport reports to a run that starts by connecting: the
/// run comes to a phase after the first, or fails in one, only if the
/// handshake was reported complete; it holds its message until it is sent;
/// while it awaits the echo, it expects as many bytes as it sent, and what
/// has come so far is short of that; and it asks for the connection to be
/// closed, or is finished, only with an echo that is not empty and has at
/// least as many bytes as were sent.
pub proof fn lemma_client_keeps_order(
    server_addr: SocketAddress,
    server_name: Seq<char>,
    message: Seq<u8>,
    events: Seq<ClientEventView>,
)
    ensures
        ({
            let start = ClientStateView::Connecting { server_addr, server_name, message };
            let end = client_run(start, events);
            &&& client_phase(end) >= 1 ==> events.contains(ClientEventView::Connected)
            &&& end matches ClientStateView::Connecting { message: held, .. } ==> held == message
            &&& end matches ClientStateView::OpeningStream { message: held } ==> held == message
            &&& end matches ClientStateView::Sending { message: held } ==> held == message
            &&& end matches ClientStateView::Finishing { sent } ==> sent == message.len()
            &&& end matches ClientStateView::AwaitingResponse { expected, received } ==> expected
                == message.len() && (received.len() < expected || received.len() == 0)
            &&& end matches ClientStateView::Closing { response } ==> response.len() > 0
                && response.len() >= message.len()
            &&& end matches ClientStateView::Finished { response } ==> response.len() > 0
                && response.len() >= message.len()
        }),
    decreases events.len(),
{
    if events.len() > 0 {
        let before = events.drop_last();
        lemma_client_keeps_order(server_addr, server_name, message, before);
        assert(events[events.len() - 1] == events.last());
        if before.contains(ClientEventView::Connected) {
            let i = choose|i: int| 0 <= i < before.len() && before[i] == ClientEventView::Connected;
            assert(events[i] == ClientEventView::Connected);
        }
    }
}

/// How many streams were opened while going from `state` through `events`.
pub open spec fn streams_opened(state: ClientStateView, events: Seq<ClientEventView>) -> nat
    decreases events.len(),
{
    if events.len() == 0 {
        0
    } else {
        let before = client_run(state, events.drop_last());
        let opened: nat = if before is OpeningStream && events.last()
            == ClientEventView::StreamOpened {
            1
        } else {
            0
        };
        streams_opened(state, events.drop_last()) + opened
    }
}

/// A run opens one stream and no more. Whatever the transport reports to a
/// run that starts by connecting, at most one stream is opened; a run that
/// has come as far as sending, or has failed there or later, has opened
/// exactly one, and a run that has not come so far has opened none.
pub proof fn lemma_client_opens_one_stream(
    server_addr: SocketAddress,
    server_name: Seq<char>,
    message: Seq<u8>,
    events: Seq<ClientEventView>,
)
    ensures
        ({
            let start = ClientStateView::Connecting { server_addr, server_name, message };
            let end = client_run(start, events);
            &&& client_phase(end) < 2 ==> streams_opened(start, events) == 0
            &&& client_phase(end) >= 2 ==> streams_opened(start, events) == 1
        }),
    decreases events.len(),
{
    if events.len() > 0 {
        lemma_client_opens_one_stream(server_addr, server_name, message, events.drop_last());
    }
}

} // verus!
