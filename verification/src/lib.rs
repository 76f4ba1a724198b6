//! Verified core of a QUIC echo service.
//!
//! The library holds what such a service decides: what an endpoint is made
//! from, how identity material is read from PEM text, and what the acceptor,
//! the session loop, the stream handler and the client do at every turn.
//! Each of the four is a machine that is told what the transport did and
//! answers with what to do next, so that the program around the library
//! only moves bytes. What the machines do together is stated in proof
//! functions next to them: echo correctness in [`stream`], isolation of
//! failed handshakes in [`acceptor`], independence of streams in
//! [`session`], graceful shutdown in [`exchange`].
//!
//! The calls into `rustls_pemfile`, `rustls` and `quinn` stand in
//! [`identity`], [`endpoint`] and [`transport`], each in a function of its
//! own whose contract is taken on trust.

pub mod acceptor;
pub mod address;
pub mod cli;
pub mod client;
pub mod endpoint;
pub mod error;
pub mod exchange;
pub mod identity;
pub mod server;
pub mod session;
pub mod stream;
pub mod transport;
