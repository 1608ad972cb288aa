//! Serving HTTPS with certificates obtained through ACME tls-alpn-01
//! challenges, next to ordinary traffic on the same listener.
//!
//! Every inbound TLS connection is classified by the ALPN protocols that its
//! ClientHello offers. A validation probe is answered with the challenge
//! configuration and then shut down; every other client is served with the
//! default configuration. Both outcomes are handed on as one [`Transport`].
//!
//! The library decides and never waits. A caller reads the ClientHello,
//! asks [`Acceptor::select`] which configuration completes the handshake,
//! completes it, and asks [`Handshake::complete`] what becomes of the
//! stream. Each operation on a [`Transport`] answers with a [`Step`]: the
//! result at once where the connection is closed, or the stream that the
//! operation belongs to.
pub mod acceptor;
pub mod alpn;
pub mod handshake;
pub mod transport;

pub use acceptor::{new, Acceptor};
pub use alpn::{classify, is_tls_alpn_challenge, Route};
pub use handshake::{Completion, Handshake};
pub use transport::{Step, Transport};
