//! HTTP/3 over QUIC for a multi-protocol HTTP server: the fixed ALPN
//! identifiers, the endpoint configuration, the acceptor that follows a
//! stream of configurations, and the serve loop of one connection.
pub mod acceptor;
pub mod alpn;
pub mod config_stream;
pub mod connection;
pub mod convert;
pub mod error;
pub mod serve;
