use quic_echo::address::{IpAddress, SocketAddress, DEFAULT_SERVER_PORT};
use quic_echo::client::ClientError;
use quic_echo::error::SetupError;
use quic_echo::server::Server;
use quic_echo::stream::StreamError;
use quic_echo::transport::{Liveness, TransportParams, KEEP_ALIVE_INTERVAL_MS};

#[test]
fn localhost_is_127_0_0_1() {
    assert_eq!(IpAddress::localhost(), IpAddress::V4(127, 0, 0, 1));
    assert_eq!(DEFAULT_SERVER_PORT, 5001);
}

#[test]
fn socket_address_keeps_its_parts() {
    let addr = SocketAddress::new(IpAddress::V4(10, 1, 2, 3), 8080);
    assert_eq!(addr.ip, IpAddress::V4(10, 1, 2, 3));
    assert_eq!(addr.port, 8080);
    assert!(!addr.is_ephemeral());
    assert!(SocketAddress::new(IpAddress::localhost(), 0).is_ephemeral());
}

#[test]
fn default_server_listens_on_5001_and_pings_after_five_seconds() {
    let server = Server::new();
    assert_eq!(server.server_addr, SocketAddress::new(IpAddress::V4(127, 0, 0, 1), 5001));
    assert_eq!(server.liveness, Liveness::KeepAlive { interval_ms: 5000 });
    assert_eq!(KEEP_ALIVE_INTERVAL_MS, 5000);
}

#[test]
fn server_with_liveness_keeps_its_address() {
    let addr = SocketAddress::new(IpAddress::V4(0, 0, 0, 0), 9000);
    let server =
        Server::with_addr(addr).with_liveness(Liveness::IdleTimeout { timeout_ms: 30_000 });
    assert_eq!(server.server_addr, addr);
    assert_eq!(server.liveness, Liveness::IdleTimeout { timeout_ms: 30_000 });
}

#[test]
fn server_parameters_admit_no_unidirectional_stream() {
    let liveness = Liveness::IdleTimeout { timeout_ms: 30_000 };
    let params = TransportParams::server(liveness);
    assert_eq!(params.max_concurrent_uni_streams, 0);
    assert_eq!(params.liveness, liveness);
}

#[test]
fn liveness_is_in_force_when_its_period_is_not_zero() {
    assert!(Liveness::KeepAlive { interval_ms: 1 }.in_force());
    assert!(Liveness::IdleTimeout { timeout_ms: 1 }.in_force());
    assert!(!Liveness::KeepAlive { interval_ms: 0 }.in_force());
    assert!(!Liveness::IdleTimeout { timeout_ms: 0 }.in_force());
}

#[test]
fn every_failure_has_its_words() {
    assert_eq!(SetupError::MalformedPem.describe(), "PEM text could not be decoded");
    assert_eq!(SetupError::MissingCertificate.describe(), "No certificates found");
    assert_eq!(SetupError::MissingPrivateKey.describe(), "No private key found");
    assert_eq!(
        SetupError::RejectedIdentity.describe(),
        "certificate chain and private key were refused"
    );
    assert_eq!(
        SetupError::InvalidRootCertificate.describe(),
        "a trusted root certificate is not valid"
    );
    assert_eq!(SetupError::NoTrustedRoots.describe(), "No trusted root certificates found");
    assert_eq!(SetupError::NoLiveness.describe(), "the liveness period must not be zero");
    assert_eq!(StreamError::StreamWriteFailed.describe(), "stream write failed");
    assert_eq!(StreamError::TransportError.describe(), "stream lost with its connection");
    assert_eq!(ClientError::ConnectFailed.describe(), "connecting to the server failed");
    assert_eq!(ClientError::StreamOpenFailed.describe(), "opening the stream failed");
    assert_eq!(ClientError::SendFailed.describe(), "sending the message failed");
    assert_eq!(ClientError::IncompleteResponse.describe(), "no response from the server");
}
