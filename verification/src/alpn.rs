//! Classification of a ClientHello by the ALPN protocols it offers.
use vstd::prelude::*;

verus! {

/// The ALPN protocol identifier reserved for tls-alpn-01 validation,
/// the ASCII bytes of `acme-tls/1`.
pub open spec fn acme_tls_alpn_name() -> Seq<u8> {
    seq![0x61u8, 0x63u8, 0x6du8, 0x65u8, 0x2du8, 0x74u8, 0x6cu8, 0x73u8, 0x2fu8, 0x31u8]
}

/// Which of the two server configurations completes a handshake.
#[derive(Clone, Copy, Debug, PartialEq, Eq, Structural)]
pub enum Route {
    /// The client is a validation probe: answer with the challenge
    /// certificate, then shut the connection down.
    Challenge,
    /// Any other client: serve it with the issued certificate.
    Default,
}

/// The protocol list of an ALPN extension as a sequence of byte strings.
pub open spec fn protocols_view(protocols: Seq<Vec<u8>>) -> Seq<Seq<u8>> {
    Seq::new(protocols.len(), |i: int| protocols[i]@)
}

/// The ALPN offer of a ClientHello: `None` where the extension is absent.
pub open spec fn offer_view(offer: Option<Vec<Vec<u8>>>) -> Option<Seq<Seq<u8>>> {
    match offer {
        None => None,
        Some(protocols) => Some(protocols_view(protocols@)),
    }
}

/// A ClientHello is a validation probe exactly when it carries an ALPN
/// extension whose only protocol is `acme-tls/1`.
pub open spec fn is_challenge_offer(offer: Option<Seq<Seq<u8>>>) -> bool {
    offer == Some(seq![acme_tls_alpn_name()])
}

/// The route that an ALPN offer selects.
pub open spec fn route_for(offer: Option<Seq<Seq<u8>>>) -> Route {
    if is_challenge_offer(offer) {
        Route::Challenge
    } else {
        Route::Default
    }
}

/// An offer selects the challenge route exactly when it lists one protocol
/// and that protocol is `acme-tls/1`. Every other offer selects the default
/// route: an absent extension, an empty list, another protocol, and
/// `acme-tls/1` beside any other protocol. Nothing but the offer enters
/// into the choice.
pub proof fn lemma_route_by_offer(offer: Option<Seq<Seq<u8>>>)
    ensures
        route_for(offer) == Route::Challenge <==> (offer matches Some(protocols)
            && protocols.len() == 1 && protocols[0] == acme_tls_alpn_name()),
        route_for(offer) == Route::Default <==> !(offer matches Some(protocols)
            && protocols.len() == 1 && protocols[0] == acme_tls_alpn_name()),
{
    let sole = seq![acme_tls_alpn_name()];
    assert(sole.len() == 1 && sole[0] == acme_tls_alpn_name());
    if let Some(protocols) = offer {
        if protocols.len() == 1 && protocols[0] == acme_tls_alpn_name() {
            assert(protocols =~= sole);
        }
    }
}

/// Whether `protocol` is `acme-tls/1`.
pub fn is_acme_tls_alpn_name(protocol: &[u8]) -> (r: bool)
    ensures
        r == (protocol@ == acme_tls_alpn_name()),
{
    let r = protocol.len() == 10 && protocol[0] == 0x61 && protocol[1] == 0x63 && protocol[2]
        == 0x6d && protocol[3] == 0x65 && protocol[4] == 0x2d && protocol[5] == 0x74
        && protocol[6] == 0x6c && protocol[7] == 0x73 && protocol[8] == 0x2f && protocol[9]
        == 0x31;
    proof {
        if r {
            assert(protocol@ =~= acme_tls_alpn_name());
        } else if protocol@.len() == 10 {
            let name = acme_tls_alpn_name();
            assert(name[0] == 0x61 && name[1] == 0x63 && name[2] == 0x6d && name[3] == 0x65
                && name[4] == 0x2d && name[5] == 0x74 && name[6] == 0x6c && name[7] == 0x73
                && name[8] == 0x2f && name[9] == 0x31);
        }
    }
    r
}

/// Whether the ALPN offer of a ClientHello marks a tls-alpn-01 validation
/// probe.
pub fn is_tls_alpn_challenge(offer: &Option<Vec<Vec<u8>>>) -> (r: bool)
    ensures
        r == is_challenge_offer(offer_view(*offer)),
{
    match offer {
        None => false,
        Some(protocols) => {
            if protocols.len() != 1 {
                proof {
                    assert(seq![acme_tls_alpn_name()].len() == 1);
                }
                false
            } else {
                let r = is_acme_tls_alpn_name(protocols[0].as_slice());
                proof {
                    let listed = protocols_view(protocols@);
                    if r {
                        assert(listed =~= seq![acme_tls_alpn_name()]);
                    } else {
                        assert(listed[0] == protocols@[0]@);
                        assert(seq![acme_tls_alpn_name()][0] == acme_tls_alpn_name());
                    }
                }
                r
            }
        },
    }
}

/// Chooses the route for a ClientHello from its ALPN offer alone.
pub fn classify(offer: &Option<Vec<Vec<u8>>>) -> (route: Route)
    ensures
        route == route_for(offer_view(*offer)),
{
    if is_tls_alpn_challenge(offer) {
        Route::Challenge
    } else {
        Route::Default
    }
}

} // verus!
