//! The server role.

use crate::address::{IpAddress, SocketAddress, DEFAULT_SERVER_PORT};
use crate::transport::{Liveness, KEEP_ALIVE_INTERVAL_MS};
use vstd::prelude::*;

verus! {

/// The echo server: where it listens, and how it gives up connections whose
/// peer has gone silent.
///
/// What the server does is spread over the modules that hold its parts:
/// endpoint setup, the acceptor loop, session handling and the stream
/// handler are all associated functions of this type.
#[derive(Clone, Copy, Debug, PartialEq, Eq, Structural)]
pub struct Server {
    pub server_addr: SocketAddress,
    pub liveness: Liveness,
}

/// The address a server listens on unless told otherwise: `127.0.0.1:5001`.
pub open spec fn default_server_addr() -> SocketAddress {
    SocketAddress { ip: IpAddress::V4(127, 0, 0, 1), port: DEFAULT_SERVER_PORT }
}

/// The liveness mechanism of a server unless told otherwise: a ping after
/// five seconds of silence.
pub open spec fn default_liveness() -> Liveness {
    Liveness::KeepAlive { interval_ms: KEEP_ALIVE_INTERVAL_MS }
}

impl Server {
    /// A server on the default address, with the default liveness mechanism.
    pub fn new() -> (server: Server)
        ensures
            server == (Server { server_addr: default_server_addr(), liveness: default_liveness() }),
    {
        Server::with_addr(SocketAddress::new(IpAddress::localhost(), DEFAULT_SERVER_PORT))
    }

    /// A server on `server_addr`, with the default liveness mechanism.
    pub fn with_addr(server_addr: SocketAddress) -> (server: Server)
        ensures
            server == (Server { server_addr, liveness: default_liveness() }),
    {
        Server {
            server_addr,
            liveness: Liveness::KeepAlive { interval_ms: KEEP_ALIVE_INTERVAL_MS },
        }
    }

    /// This server, with `liveness` for its liveness mechanism.
    pub fn with_liveness(self, liveness: Liveness) -> (server: Server)
        ensures
            server == (Server { server_addr: self.server_addr, liveness }),
    {
        Server { server_addr: self.server_addr, liveness }
    }
}

} // verus!
