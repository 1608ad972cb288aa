//! One handshake, from the ClientHello to a transport.
use crate::alpn::Route;
use crate::transport::Transport;
use rustls_acme::futures_rustls::rustls::ServerConfig;
use rustls_acme::futures_rustls::server::TlsStream;
use std::sync::Arc;
use vstd::prelude::*;

verus! {

/// A handshake whose ClientHello has been classified and which has not
/// been completed yet. It is made by [`crate::Acceptor::select`] and used up
/// by [`Handshake::complete`], so a stream is completed once, on the route
/// that its ClientHello chose.
pub struct Handshake {
    route: Route,
    server_config: Arc<ServerConfig>,
}

/// What is to be done with a stream whose handshake has just completed.
#[verifier::reject_recursive_types(Input)]
pub enum Completion<Input> {
    /// A validation probe was answered: flush and close this stream, then
    /// hand on [`Transport::shut_down`] of it.
    Shutdown(TlsStream<Input>),
    /// An ordinary client is connected: hand on this transport.
    Serve(Transport<Input>),
}

impl Handshake {
    /// The route that the ClientHello chose.
    pub closed spec fn chosen_route(&self) -> Route {
        self.route
    }

    /// The configuration that completes the handshake.
    pub closed spec fn chosen_config(&self) -> ServerConfig {
        *self.server_config
    }

    pub(crate) fn new(route: Route, server_config: Arc<ServerConfig>) -> (handshake: Self)
        ensures
            handshake.chosen_route() == route,
            handshake.chosen_config() == *server_config,
    {
        Handshake { route, server_config }
    }

    /// The route that the ClientHello chose.
    pub fn route(&self) -> (route: Route)
        ensures
            route == self.chosen_route(),
    {
        self.route
    }

    /// A handle to the configuration that completes the handshake.
    pub fn server_config(&self) -> (config: Arc<ServerConfig>)
        ensures
            *config == self.chosen_config(),
    {
        self.server_config.clone()
    }

    /// Decides what becomes of the stream that the handshake produced. A
    /// probe's stream is never served: it is to be shut down. Any other
    /// stream becomes a live transport, as it is.
    pub fn complete<Input>(self, stream: TlsStream<Input>) -> (completion: Completion<Input>)
        ensures
            match self.chosen_route() {
                Route::Challenge => completion == Completion::Shutdown(stream),
                Route::Default => completion matches Completion::Serve(transport)
                    && transport.stream() == Some(stream),
            },
    {
        match self.route {
            Route::Challenge => Completion::Shutdown(stream),
            Route::Default => Completion::Serve(Transport::live(stream)),
        }
    }
}

} // verus!
