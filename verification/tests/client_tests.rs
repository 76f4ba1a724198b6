use quic_echo::address::{IpAddress, SocketAddress};
use quic_echo::client::{
    hello, Client, ClientAction, ClientError, ClientEvent, ClientState, CLOSE_CODE, RESPONSE_LIMIT,
};

fn run(mut state: ClientState, events: Vec<ClientEvent>) -> ClientState {
    for event in events {
        state = Client::handle_client_session(state, event);
    }
    state
}

fn up_to_response() -> Vec<ClientEvent> {
    vec![
        ClientEvent::Connected,
        ClientEvent::StreamOpened,
        ClientEvent::Sent,
        ClientEvent::SendFinished,
    ]
}

#[test]
fn default_client_calls_localhost_5001() {
    let client = Client::new();
    assert_eq!(client.client_addr, SocketAddress::new(IpAddress::V4(127, 0, 0, 1), 0));
    assert_eq!(client.server_addr, SocketAddress::new(IpAddress::V4(127, 0, 0, 1), 5001));
    assert_eq!(client.server_name, "localhost");
    assert!(client.client_addr.is_ephemeral());
    assert!(!client.server_addr.is_ephemeral());
}

#[test]
fn client_with_args_keeps_them() {
    let bind = SocketAddress::new(IpAddress::V4(10, 0, 0, 7), 4000);
    let server = SocketAddress::new(IpAddress::V6(0, 0, 0, 0, 0, 0, 0, 1), 4433);
    let client = Client::with_args(bind, server, "echo.example");
    assert_eq!(client.client_addr, bind);
    assert_eq!(client.server_addr, server);
    assert_eq!(client.server_name, "echo.example");
}

#[test]
fn hello_is_the_greeting() {
    assert_eq!(hello(), b"Hello, QUIC server!".to_vec());
    assert_eq!(hello().len(), 19);
}

#[test]
fn run_starts_by_connecting_with_the_greeting() {
    let client = Client::new();
    let state = client.connect_to_server();
    assert_eq!(
        state,
        ClientState::Connecting {
            server_addr: client.server_addr,
            server_name: "localhost".to_string(),
            message: b"Hello, QUIC server!".to_vec(),
        }
    );
    assert_eq!(
        state.action(),
        ClientAction::Connect {
            server_addr: client.server_addr,
            server_name: "localhost".to_string()
        }
    );
}

#[test]
fn run_with_own_message_sends_it() {
    let client = Client::new();
    let state = client.connect_with_message(vec![1, 2, 3]);
    let state = run(state, vec![ClientEvent::Connected, ClientEvent::StreamOpened]);
    assert_eq!(state.action(), ClientAction::Send(vec![1, 2, 3]));
}

#[test]
fn phases_follow_in_order() {
    let mut state = Client::new().connect_to_server();
    state = Client::handle_client_session(state, ClientEvent::Connected);
    assert_eq!(state.action(), ClientAction::OpenStream);
    state = Client::handle_client_session(state, ClientEvent::StreamOpened);
    assert_eq!(state.action(), ClientAction::Send(b"Hello, QUIC server!".to_vec()));
    state = Client::handle_client_session(state, ClientEvent::Sent);
    assert_eq!(state.action(), ClientAction::FinishSend);
    state = Client::handle_client_session(state, ClientEvent::SendFinished);
    assert_eq!(state, ClientState::AwaitingResponse { expected: 19, received: Vec::new() });
    assert_eq!(state.action(), ClientAction::ReadResponse { max: 1024 });
    assert_eq!(RESPONSE_LIMIT, 1024);
    let echo = b"Hello, QUIC server!".to_vec();
    state = Client::handle_client_session(state, ClientEvent::Response(echo.clone()));
    assert_eq!(state.action(), ClientAction::Close { code: 0, reason: b"Done".to_vec() });
    assert_eq!(CLOSE_CODE, 0);
    state = Client::handle_client_session(state, ClientEvent::Closed);
    assert_eq!(state, ClientState::Finished { response: echo.clone() });
    assert_eq!(state.action(), ClientAction::Stop);
    assert_eq!(state.into_result(), Some(Ok(echo)));
}

#[test]
fn echo_split_over_reads_is_read_whole_before_the_close() {
    let mut state = run(Client::new().connect_to_server(), up_to_response());
    state = Client::handle_client_session(state, ClientEvent::Response(b"Hello, QUI".to_vec()));
    assert_eq!(
        state,
        ClientState::AwaitingResponse { expected: 19, received: b"Hello, QUI".to_vec() }
    );
    assert_eq!(state.action(), ClientAction::ReadResponse { max: 1024 });
    state = Client::handle_client_session(state, ClientEvent::Response(b"C server!".to_vec()));
    assert_eq!(state, ClientState::Closing { response: b"Hello, QUIC server!".to_vec() });
    assert_eq!(state.action(), ClientAction::Close { code: 0, reason: b"Done".to_vec() });
    state = Client::handle_client_session(state, ClientEvent::Closed);
    assert_eq!(state.into_result(), Some(Ok(b"Hello, QUIC server!".to_vec())));
}

#[test]
fn echo_that_comes_byte_by_byte_is_read_whole() {
    let mut state = run(Client::new().connect_to_server(), up_to_response());
    for (i, byte) in b"Hello, QUIC server!".iter().enumerate() {
        assert_eq!(state.action(), ClientAction::ReadResponse { max: 1024 }, "before byte {}", i);
        state = Client::handle_client_session(state, ClientEvent::Response(vec![*byte]));
    }
    assert_eq!(state, ClientState::Closing { response: b"Hello, QUIC server!".to_vec() });
}

#[test]
fn part_of_the_echo_is_no_success() {
    let mut state = run(Client::new().connect_to_server(), up_to_response());
    state = Client::handle_client_session(state, ClientEvent::Response(vec![5, 6]));
    assert_eq!(state, ClientState::AwaitingResponse { expected: 19, received: vec![5, 6] });
    assert_eq!(state.clone().into_result(), None);
    let ended = Client::handle_client_session(state.clone(), ClientEvent::EndOfStream);
    assert_eq!(ended, ClientState::Failed(ClientError::IncompleteResponse));
    let failed = Client::handle_client_session(state.clone(), ClientEvent::Failed);
    assert_eq!(failed, ClientState::Failed(ClientError::IncompleteResponse));
    let empty = Client::handle_client_session(state, ClientEvent::Response(Vec::new()));
    assert_eq!(empty, ClientState::Failed(ClientError::IncompleteResponse));
}

#[test]
fn long_message_is_awaited_in_full() {
    let message: Vec<u8> = (0..2500u32).map(|i| (i % 239) as u8).collect();
    let mut state = run(Client::new().connect_with_message(message.clone()), up_to_response());
    assert_eq!(state, ClientState::AwaitingResponse { expected: 2500, received: Vec::new() });
    for piece in message.chunks(1024) {
        assert_eq!(state.action(), ClientAction::ReadResponse { max: 1024 });
        state = Client::handle_client_session(state, ClientEvent::Response(piece.to_vec()));
    }
    assert_eq!(state, ClientState::Closing { response: message });
}

#[test]
fn run_under_way_has_no_result() {
    let state = Client::new().connect_to_server();
    assert_eq!(state.into_result(), None);
    let state = run(Client::new().connect_to_server(), up_to_response());
    assert_eq!(state, ClientState::AwaitingResponse { expected: 19, received: Vec::new() });
    assert_eq!(state.into_result(), None);
}

#[test]
fn failed_handshake_is_connect_failed() {
    let state = run(Client::new().connect_to_server(), vec![ClientEvent::Failed]);
    assert_eq!(state, ClientState::Failed(ClientError::ConnectFailed));
    assert_eq!(state.action(), ClientAction::Stop);
    assert_eq!(state.into_result(), Some(Err(ClientError::ConnectFailed)));
}

#[test]
fn failed_open_is_stream_open_failed() {
    let state = run(
        Client::new().connect_to_server(),
        vec![ClientEvent::Connected, ClientEvent::Failed],
    );
    assert_eq!(state, ClientState::Failed(ClientError::StreamOpenFailed));
}

#[test]
fn failed_write_or_finish_is_send_failed() {
    let state = run(
        Client::new().connect_to_server(),
        vec![ClientEvent::Connected, ClientEvent::StreamOpened, ClientEvent::Failed],
    );
    assert_eq!(state, ClientState::Failed(ClientError::SendFailed));
    let state = run(
        Client::new().connect_to_server(),
        vec![
            ClientEvent::Connected,
            ClientEvent::StreamOpened,
            ClientEvent::Sent,
            ClientEvent::Failed,
        ],
    );
    assert_eq!(state, ClientState::Failed(ClientError::SendFailed));
}

#[test]
fn missing_echo_is_incomplete_response() {
    for last in [ClientEvent::Response(Vec::new()), ClientEvent::EndOfStream, ClientEvent::Failed] {
        let mut events = up_to_response();
        events.push(last);
        let state = run(Client::new().connect_to_server(), events);
        assert_eq!(state, ClientState::Failed(ClientError::IncompleteResponse));
    }
}

#[test]
fn failure_is_final() {
    let failed = ClientState::Failed(ClientError::ConnectFailed);
    let state = run(
        failed.clone(),
        vec![
            ClientEvent::Connected,
            ClientEvent::StreamOpened,
            ClientEvent::Sent,
            ClientEvent::SendFinished,
            ClientEvent::Response(b"Hello, QUIC server!".to_vec()),
            ClientEvent::Closed,
        ],
    );
    assert_eq!(state, failed);
}

#[test]
fn closing_cannot_fail() {
    let closing = ClientState::Closing { response: vec![1] };
    assert_eq!(Client::handle_client_session(closing.clone(), ClientEvent::Failed), closing);
}

#[test]
fn client_ignores_what_it_is_not_waiting_for() {
    let start = Client::new().connect_to_server();
    for event in [
        ClientEvent::StreamOpened,
        ClientEvent::Sent,
        ClientEvent::SendFinished,
        ClientEvent::Response(vec![1]),
        ClientEvent::EndOfStream,
        ClientEvent::Closed,
    ] {
        assert_eq!(Client::handle_client_session(start.clone(), event), start);
    }
    let waiting = ClientState::AwaitingResponse { expected: 3, received: vec![1] };
    assert_eq!(Client::handle_client_session(waiting.clone(), ClientEvent::Connected), waiting);
    assert_eq!(Client::handle_client_session(waiting.clone(), ClientEvent::Closed), waiting);
}
