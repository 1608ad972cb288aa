//! The acceptor: two server configurations and the choice between them.
use crate::alpn::{acme_tls_alpn_name, classify, offer_view, route_for, Route};
use crate::handshake::Handshake;
use rustls_acme::futures_rustls::rustls::ServerConfig;
use rustls_acme::{AcmeConfig, AcmeState};
use std::fmt::Debug;
use std::sync::Arc;
use vstd::prelude::*;

verus! {

/// rustls's server configuration; its contents stay with rustls.
#[verifier::external_type_specification]
#[verifier::external_body]
pub struct ExServerConfig(ServerConfig);

/// rustls-acme's description of the certificate to obtain.
#[verifier::external_type_specification]
#[verifier::external_body]
#[verifier::reject_recursive_types(EC)]
#[verifier::reject_recursive_types(EA)]
pub struct ExAcmeConfig<EC: Debug, EA: Debug>(AcmeConfig<EC, EA>);

/// rustls-acme's issuance driver: a stream of lifecycle events.
#[verifier::external_type_specification]
#[verifier::external_body]
#[verifier::reject_recursive_types(EC)]
#[verifier::reject_recursive_types(EA)]
pub struct ExAcmeState<EC: Debug, EA: Debug>(AcmeState<EC, EA>);

/// The ALPN protocols that a server configuration advertises, most
/// preferred first: the contents of `ServerConfig::alpn_protocols`.
pub uninterp spec fn advertised_alpn(config: ServerConfig) -> Seq<Seq<u8>>;

/// `AcmeConfig::state` starts the issuance driver for a configuration.
/// Nothing is claimed of the driver it returns.
pub assume_specification<EC: 'static + Debug, EA: 'static + Debug>[ AcmeConfig::<EC, EA>::state ](
    config: AcmeConfig<EC, EA>,
) -> (state: AcmeState<EC, EA>)
;

/// `AcmeState::challenge_rustls_config` builds a server configuration around
/// the driver's certificate resolver and pushes `acme-tls/1` onto its
/// otherwise empty ALPN list.
pub assume_specification<EC: 'static + Debug, EA: 'static + Debug>[ AcmeState::<EC, EA>::challenge_rustls_config ](
    state: &AcmeState<EC, EA>,
) -> (config: Arc<ServerConfig>)
    ensures
        advertised_alpn(*config) == seq![acme_tls_alpn_name()],
;

/// `AcmeState::default_rustls_config` builds a server configuration around
/// the driver's certificate resolver and leaves its ALPN list empty.
pub assume_specification<EC: 'static + Debug, EA: 'static + Debug>[ AcmeState::<EC, EA>::default_rustls_config ](
    state: &AcmeState<EC, EA>,
) -> (config: Arc<ServerConfig>)
    ensures
        advertised_alpn(*config) == Seq::<Seq<u8>>::empty(),
;

/// An acceptor that answers ACME tls-alpn-01 challenges.
///
/// It holds one handle to each server configuration. The issuance driver
/// keeps the certificates behind them current; the acceptor only reads.
#[derive(Debug)]
pub struct Acceptor {
    challenge_server_config: Arc<ServerConfig>,
    default_server_config: Arc<ServerConfig>,
}

impl Clone for Acceptor {
    /// A second acceptor over the same two configurations.
    fn clone(&self) -> (copy: Self)
        ensures
            copy.challenge_config() == self.challenge_config(),
            copy.default_config() == self.default_config(),
    {
        proof {
            use_type_invariant(self);
        }
        Acceptor {
            challenge_server_config: self.challenge_server_config.clone(),
            default_server_config: self.default_server_config.clone(),
        }
    }
}

impl Acceptor {
    /// The configuration that answers validation probes.
    pub closed spec fn challenge_config(&self) -> ServerConfig {
        *self.challenge_server_config
    }

    /// The configuration that serves every other client.
    pub closed spec fn default_config(&self) -> ServerConfig {
        *self.default_server_config
    }

    /// The challenge configuration advertises `acme-tls/1` and nothing else,
    /// so a probe's handshake negotiates that protocol.
    #[verifier::type_invariant]
    pub closed spec fn well_formed(&self) -> bool {
        advertised_alpn(*self.challenge_server_config) == seq![acme_tls_alpn_name()]
    }

    /// The one configuration that completes a handshake on `route`.
    pub open spec fn config_for(&self, route: Route) -> ServerConfig {
        match route {
            Route::Challenge => self.challenge_config(),
            Route::Default => self.default_config(),
        }
    }

    /// A handle to the configuration that answers validation probes.
    pub fn challenge_server_config(&self) -> (config: Arc<ServerConfig>)
        ensures
            *config == self.challenge_config(),
            advertised_alpn(*config) == seq![acme_tls_alpn_name()],
    {
        proof {
            use_type_invariant(self);
        }
        self.challenge_server_config.clone()
    }

    /// A handle to the configuration that serves every other client.
    pub fn default_server_config(&self) -> (config: Arc<ServerConfig>)
        ensures
            *config == self.default_config(),
    {
        self.default_server_config.clone()
    }

    /// A handle to the configuration for `route`.
    pub fn server_config(&self, route: Route) -> (config: Arc<ServerConfig>)
        ensures
            *config == self.config_for(route),
            route == Route::Challenge ==> advertised_alpn(*config) == seq![acme_tls_alpn_name()],
    {
        match route {
            Route::Challenge => self.challenge_server_config(),
            Route::Default => self.default_server_config(),
        }
    }

    /// Classifies a ClientHello by the ALPN protocols it offers (`None`
    /// where it carries no ALPN extension) and picks the one configuration
    /// that completes its handshake.
    pub fn select(&self, offer: &Option<Vec<Vec<u8>>>) -> (handshake: Handshake)
        ensures
            handshake.chosen_route() == route_for(offer_view(*offer)),
            handshake.chosen_config() == self.config_for(handshake.chosen_route()),
            handshake.chosen_route() == Route::Challenge ==> advertised_alpn(
                handshake.chosen_config(),
            ) == seq![acme_tls_alpn_name()],
    {
        let route = classify(offer);
        Handshake::new(route, self.server_config(route))
    }
}

/// Creates the acceptor for `config`, and the issuance driver whose events
/// the caller polls in the background for as long as the server runs.
pub fn new<EC: 'static + Debug, EA: 'static + Debug>(config: AcmeConfig<EC, EA>) -> (created: (
    Acceptor,
    AcmeState<EC, EA>,
))
    ensures
        advertised_alpn(created.0.challenge_config()) == seq![acme_tls_alpn_name()],
        advertised_alpn(created.0.default_config()) == Seq::<Seq<u8>>::empty(),
{
    let state = config.state();
    let challenge_server_config = state.challenge_rustls_config();
    let default_server_config = state.default_rustls_config();
    (Acceptor { challenge_server_config, default_server_config }, state)
}

} // verus!
