use rustls_acme::futures_rustls::rustls::server::Acceptor as HelloReader;
use rustls_acme::futures_rustls::rustls::{ClientConfig, ClientConnection, RootCertStore};
use std::sync::Arc;
use trillium_acme::alpn::{classify, is_acme_tls_alpn_name};
use trillium_acme::{is_tls_alpn_challenge, Route};

fn offer(protocols: &[&[u8]]) -> Option<Vec<Vec<u8>>> {
    Some(protocols.iter().map(|protocol| protocol.to_vec()).collect())
}

/// The bytes of the first flight of a rustls client that offers `protocols`.
fn client_hello(protocols: &[&[u8]]) -> Vec<u8> {
    let mut config = ClientConfig::builder()
        .with_root_certificates(RootCertStore::empty())
        .with_no_client_auth();
    config.alpn_protocols = protocols.iter().map(|protocol| protocol.to_vec()).collect();
    let name = "domain.example".to_string().try_into().unwrap();
    let mut client = ClientConnection::new(Arc::new(config), name).unwrap();
    let mut flight = Vec::new();
    client.write_tls(&mut flight).unwrap();
    flight
}

/// What rustls reads out of a first flight: the ALPN offer as plain values,
/// and rustls-acme's own verdict on the ClientHello.
fn read_hello(flight: &[u8]) -> (Option<Vec<Vec<u8>>>, bool) {
    let mut reader = HelloReader::default();
    let mut bytes = flight;
    reader.read_tls(&mut bytes).unwrap();
    let accepted = match reader.accept() {
        Ok(Some(accepted)) => accepted,
        Ok(None) => panic!("the ClientHello is incomplete"),
        Err(_) => panic!("the ClientHello was refused"),
    };
    let hello = accepted.client_hello();
    let offer = hello
        .alpn()
        .map(|protocols| protocols.map(|protocol| protocol.to_vec()).collect());
    (offer, rustls_acme::is_tls_alpn_challenge(&hello))
}

#[test]
fn marker_is_the_name_that_rustls_acme_advertises() {
    assert_eq!(rustls_acme::acme::ACME_TLS_ALPN_NAME, b"acme-tls/1");
    assert!(is_acme_tls_alpn_name(rustls_acme::acme::ACME_TLS_ALPN_NAME));
    assert!(is_acme_tls_alpn_name(b"acme-tls/1"));
}

#[test]
fn near_misses_are_not_the_marker() {
    assert!(!is_acme_tls_alpn_name(b""));
    assert!(!is_acme_tls_alpn_name(b"acme-tls/"));
    assert!(!is_acme_tls_alpn_name(b"acme-tls/2"));
    assert!(!is_acme_tls_alpn_name(b"acme-tls/10"));
    assert!(!is_acme_tls_alpn_name(b"Acme-tls/1"));
    assert!(!is_acme_tls_alpn_name(b"bcme-tls/1"));
    assert!(!is_acme_tls_alpn_name(b"http/1.1"));
    assert!(!is_acme_tls_alpn_name(b"h2"));
}

#[test]
fn sole_marker_is_a_challenge() {
    let probe = offer(&[b"acme-tls/1"]);
    assert!(is_tls_alpn_challenge(&probe));
    assert_eq!(classify(&probe), Route::Challenge);
}

#[test]
fn ordinary_protocols_take_the_default_route() {
    let browser = offer(&[b"h2", b"http/1.1"]);
    assert!(!is_tls_alpn_challenge(&browser));
    assert_eq!(classify(&browser), Route::Default);
}

#[test]
fn absent_extension_takes_the_default_route() {
    assert!(!is_tls_alpn_challenge(&None));
    assert_eq!(classify(&None), Route::Default);
}

#[test]
fn empty_list_takes_the_default_route() {
    assert!(!is_tls_alpn_challenge(&Some(Vec::new())));
    assert_eq!(classify(&Some(Vec::new())), Route::Default);
}

#[test]
fn marker_among_other_protocols_takes_the_default_route() {
    assert_eq!(classify(&offer(&[b"acme-tls/1", b"h2"])), Route::Default);
    assert_eq!(classify(&offer(&[b"h2", b"acme-tls/1"])), Route::Default);
    assert_eq!(classify(&offer(&[b"acme-tls/1", b"acme-tls/1"])), Route::Default);
}

#[test]
fn single_other_protocol_takes_the_default_route() {
    assert_eq!(classify(&offer(&[b"acme-tls/2"])), Route::Default);
    assert_eq!(classify(&offer(&[b"http/1.1"])), Route::Default);
    assert_eq!(classify(&offer(&[b""])), Route::Default);
}

#[test]
fn classification_repeats_itself() {
    let probe = offer(&[b"acme-tls/1"]);
    let browser = offer(&[b"h2", b"http/1.1"]);
    for _ in 0..3 {
        assert_eq!(classify(&probe), Route::Challenge);
        assert_eq!(classify(&browser), Route::Default);
    }
    assert_eq!(classify(&probe.clone()), classify(&probe));
}

#[test]
fn probe_hello_from_rustls_is_a_challenge() {
    let (offer, verdict) = read_hello(&client_hello(&[b"acme-tls/1"]));
    assert_eq!(offer, Some(vec![b"acme-tls/1".to_vec()]));
    assert!(verdict);
    assert_eq!(is_tls_alpn_challenge(&offer), verdict);
    assert_eq!(classify(&offer), Route::Challenge);
}

#[test]
fn browser_hello_from_rustls_takes_the_default_route() {
    let (offer, verdict) = read_hello(&client_hello(&[b"h2", b"http/1.1"]));
    assert_eq!(offer, Some(vec![b"h2".to_vec(), b"http/1.1".to_vec()]));
    assert!(!verdict);
    assert_eq!(is_tls_alpn_challenge(&offer), verdict);
    assert_eq!(classify(&offer), Route::Default);
}

#[test]
fn hello_without_alpn_from_rustls_takes_the_default_route() {
    let (offer, verdict) = read_hello(&client_hello(&[]));
    assert_eq!(offer, None);
    assert!(!verdict);
    assert_eq!(is_tls_alpn_challenge(&offer), verdict);
    assert_eq!(classify(&offer), Route::Default);
}

#[test]
fn verdicts_agree_with_rustls_acme_on_mixed_offers() {
    let offers: [&[&[u8]]; 4] = [
        &[b"acme-tls/1", b"h2"],
        &[b"h2", b"acme-tls/1"],
        &[b"acme-tls/2"],
        &[b"http/1.1"],
    ];
    for protocols in offers {
        let (offer, verdict) = read_hello(&client_hello(protocols));
        assert!(!verdict);
        assert_eq!(is_tls_alpn_challenge(&offer), verdict);
    }
}
