use quic_echo::acceptor::{AcceptorAction, AcceptorEvent, AcceptorState};
use quic_echo::address::{IpAddress, SocketAddress};
use quic_echo::client::{Client, ClientAction, ClientEvent, ClientState};
use quic_echo::server::Server;
use quic_echo::session::{CloseReason, SessionAction, SessionEvent, SessionState};
use quic_echo::stream::{StreamAction, StreamEvent, StreamOutcome, StreamState};

/// What a client run saw of a server that it reached through a transport
/// held in memory.
struct Exchange {
    connected_to: Option<(SocketAddress, String)>,
    sent: Vec<u8>,
    echoed: Vec<u8>,
    closed_with: Option<(u32, Vec<u8>)>,
    client: ClientState,
    acceptor: AcceptorState,
    session: SessionState,
    handler: StreamState,
}

/// Runs `client` against `server` with `message`, the transport delivering
/// the message to the server in chunks of at most `chunk` bytes, and the
/// echo to the client in the same way.
fn exchange(server: &Server, client: &Client, message: Vec<u8>, chunk: usize) -> Exchange {
    let mut acceptor = AcceptorState::new();
    let mut session = SessionState::new();
    let mut handler = StreamState::new();
    let mut state = client.connect_with_message(message);
    let mut to_server: Vec<u8> = Vec::new();
    let mut to_client: Vec<u8> = Vec::new();
    let mut finished = false;
    let mut seen = Exchange {
        connected_to: None,
        sent: Vec::new(),
        echoed: Vec::new(),
        closed_with: None,
        client: state.clone(),
        acceptor,
        session,
        handler: handler.clone(),
    };
    for _ in 0..4096 {
        let event = match state.action() {
            ClientAction::Connect { server_addr, server_name } => {
                seen.connected_to = Some((server_addr, server_name));
                if server_addr != server.server_addr {
                    ClientEvent::Failed
                } else {
                    assert_eq!(acceptor.action(), AcceptorAction::Accept);
                    acceptor = Server::server_loop(acceptor, AcceptorEvent::Incoming);
                    assert_eq!(acceptor.action(), AcceptorAction::AwaitHandshake);
                    acceptor = Server::server_loop(acceptor, AcceptorEvent::HandshakeCompleted);
                    assert_eq!(acceptor.action(), AcceptorAction::SpawnSession);
                    acceptor = Server::server_loop(acceptor, AcceptorEvent::Handled);
                    ClientEvent::Connected
                }
            }
            ClientAction::OpenStream => {
                assert_eq!(session.action(), SessionAction::AcceptStream);
                session = Server::handle_connection(session, SessionEvent::StreamAccepted);
                assert_eq!(session.action(), SessionAction::SpawnStreamHandler);
                session = Server::handle_connection(session, SessionEvent::Handled);
                ClientEvent::StreamOpened
            }
            ClientAction::Send(bytes) => {
                seen.sent = bytes.clone();
                to_server.extend_from_slice(&bytes);
                ClientEvent::Sent
            }
            ClientAction::FinishSend => {
                finished = true;
                ClientEvent::SendFinished
            }
            ClientAction::ReadResponse { max } => {
                // The server's handler runs until it has nothing left to do.
                loop {
                    let served = match handler.action() {
                        StreamAction::Read { max } => {
                            if !to_server.is_empty() {
                                let n = to_server.len().min(max).min(chunk);
                                StreamEvent::Data(to_server.drain(..n).collect())
                            } else if finished {
                                StreamEvent::EndOfStream
                            } else {
                                break;
                            }
                        }
                        StreamAction::Write(bytes) => {
                            to_client.extend_from_slice(&bytes);
                            StreamEvent::Written
                        }
                        StreamAction::Stop(_) => break,
                    };
                    handler = Server::handle_stream(handler, served);
                }
                if to_client.is_empty() {
                    ClientEvent::EndOfStream
                } else {
                    let n = to_client.len().min(max).min(chunk);
                    let bytes: Vec<u8> = to_client.drain(..n).collect();
                    seen.echoed.extend_from_slice(&bytes);
                    assert_eq!(seen.closed_with, None);
                    ClientEvent::Response(bytes)
                }
            }
            ClientAction::Close { code, reason } => {
                seen.closed_with = Some((code, reason));
                session = Server::handle_connection(
                    session,
                    SessionEvent::ConnectionClosed(CloseReason::PeerClosed),
                );
                ClientEvent::Closed
            }
            ClientAction::Stop => break,
        };
        state = Client::handle_client_session(state, event);
    }
    seen.client = state;
    seen.acceptor = acceptor;
    seen.session = session;
    seen.handler = handler;
    seen
}

#[test]
fn hello_is_echoed_and_the_connection_closed_with_done() {
    let server = Server::with_addr(SocketAddress::new(IpAddress::V4(127, 0, 0, 1), 5001));
    let client = Client::with_args(
        SocketAddress::new(IpAddress::V4(127, 0, 0, 1), 0),
        SocketAddress::new(IpAddress::V4(127, 0, 0, 1), 5001),
        "localhost",
    );
    let seen = exchange(&server, &client, b"Hello, QUIC server!".to_vec(), 1024);
    assert_eq!(
        seen.connected_to,
        Some((SocketAddress::new(IpAddress::V4(127, 0, 0, 1), 5001), "localhost".to_string()))
    );
    assert_eq!(seen.sent, b"Hello, QUIC server!".to_vec());
    assert_eq!(seen.echoed, b"Hello, QUIC server!".to_vec());
    assert_eq!(seen.closed_with, Some((0, b"Done".to_vec())));
    assert_eq!(seen.client, ClientState::Finished { response: b"Hello, QUIC server!".to_vec() });
    assert_eq!(seen.handler, StreamState::Closed(StreamOutcome::Completed));
    assert_eq!(seen.session, SessionState::Closed(CloseReason::PeerClosed));
    assert_eq!(seen.acceptor, AcceptorState::Listening);
}

#[test]
fn default_client_reaches_default_server() {
    let seen = exchange(&Server::new(), &Client::new(), b"Hello, QUIC server!".to_vec(), 1024);
    assert_eq!(seen.client.into_result(), Some(Ok(b"Hello, QUIC server!".to_vec())));
}

#[test]
fn message_delivered_in_small_chunks_comes_back_whole() {
    let message: Vec<u8> = (0..1000u32).map(|i| (i % 241) as u8).collect();
    let seen = exchange(&Server::new(), &Client::new(), message.clone(), 7);
    assert_eq!(seen.echoed, message);
    assert_eq!(seen.handler, StreamState::Closed(StreamOutcome::Completed));
    assert_eq!(seen.client, ClientState::Finished { response: message });
}

#[test]
fn server_handler_sees_the_half_close_and_exits_cleanly() {
    let seen = exchange(&Server::new(), &Client::new(), vec![42], 1024);
    assert_eq!(seen.handler.outcome(), Some(StreamOutcome::Completed));
    assert_eq!(seen.handler.outcome().unwrap().result(), Ok(()));
    assert_eq!(seen.closed_with, Some((0, b"Done".to_vec())));
}

#[test]
fn empty_message_gets_no_echo_and_fails_the_run() {
    let seen = exchange(&Server::new(), &Client::new(), Vec::new(), 1024);
    assert_eq!(seen.handler, StreamState::Closed(StreamOutcome::Completed));
    assert_eq!(
        seen.client.into_result(),
        Some(Err(quic_echo::client::ClientError::IncompleteResponse))
    );
    assert_eq!(seen.closed_with, None);
}

#[test]
fn client_that_calls_elsewhere_does_not_connect() {
    let elsewhere = Client::with_args(
        SocketAddress::new(IpAddress::V4(127, 0, 0, 1), 0),
        SocketAddress::new(IpAddress::V4(127, 0, 0, 1), 5002),
        "localhost",
    );
    let seen = exchange(&Server::new(), &elsewhere, vec![1], 1024);
    assert_eq!(
        seen.client.into_result(),
        Some(Err(quic_echo::client::ClientError::ConnectFailed))
    );
    assert_eq!(seen.acceptor, AcceptorState::Listening);
}

#[test]
fn message_longer_than_one_read_comes_back_whole() {
    let message: Vec<u8> = (0..3000u32).map(|i| (i % 233) as u8).collect();
    let seen = exchange(&Server::new(), &Client::new(), message.clone(), 1024);
    assert_eq!(seen.echoed, message);
    assert_eq!(seen.closed_with, Some((0, b"Done".to_vec())));
    assert_eq!(seen.handler, StreamState::Closed(StreamOutcome::Completed));
    assert_eq!(seen.client, ClientState::Finished { response: message });
}

#[test]
fn echo_that_trickles_in_is_whole_before_the_close() {
    let seen = exchange(&Server::new(), &Client::new(), b"Hello, QUIC server!".to_vec(), 3);
    assert_eq!(seen.echoed, b"Hello, QUIC server!".to_vec());
    assert_eq!(seen.closed_with, Some((0, b"Done".to_vec())));
    assert_eq!(seen.client.into_result(), Some(Ok(b"Hello, QUIC server!".to_vec())));
}
