use rocket_listener::certificates::chain_from_peer;
use rocket_listener::{alpn_protocols, client_auth, credential_error, CertificateData, Certificates, ClientAuth, TlsArtifact, SESSION_CACHE_CAPACITY};

#[test]
fn alpn_with_http2_prefers_h2() {
    assert_eq!(alpn_protocols(true), vec![b"h2".to_vec(), b"http/1.1".to_vec()]);
}

#[test]
fn alpn_without_http2_is_http1_only() {
    assert_eq!(alpn_protocols(false), vec![b"http/1.1".to_vec()]);
}

#[test]
fn client_auth_follows_ca_bundle_and_mandatory_flag() {
    assert_eq!(client_auth(false, false), ClientAuth::Disabled);
    assert_eq!(client_auth(false, true), ClientAuth::Disabled);
    assert_eq!(client_auth(true, false), ClientAuth::Optional);
    assert_eq!(client_auth(true, true), ClientAuth::Mandatory);
}

#[test]
fn setup_errors_name_the_artifact() {
    assert_eq!(TlsArtifact::CertChain.label(), "bad TLS cert chain");
    assert_eq!(TlsArtifact::PrivateKey.label(), "bad TLS private key");
    assert_eq!(TlsArtifact::CaCerts.label(), "bad CA cert(s)");
    assert_eq!(TlsArtifact::Config.label(), "bad TLS config");
    assert_eq!(TlsArtifact::Ticketer.label(), "bad TLS ticketer");
}

#[test]
fn certificate_store_is_filled_once() {
    let store = Certificates::new();
    assert!(store.chain_data().is_none());
    let first = vec![CertificateData(vec![1, 2, 3])];
    let second = vec![CertificateData(vec![9]), CertificateData(vec![8])];
    assert!(store.set(first.clone()));
    assert!(!store.set(second));
    assert_eq!(store.chain_data(), Some(&first[..]));
    let shared = store.clone();
    assert!(!shared.set(vec![]));
    assert_eq!(shared.chain_data(), Some(&first[..]));
}

#[test]
fn clones_see_a_later_fill() {
    let store = Certificates::new();
    let reader = store.clone();
    assert!(reader.chain_data().is_none());
    assert!(store.set(vec![CertificateData(vec![5])]));
    assert_eq!(reader.chain_data(), Some(&[CertificateData(vec![5])][..]));
}

#[test]
fn peer_chain_keeps_peer_then_issuer_order() {
    let peer = rustls::Certificate(vec![0x30, 0x01, 0xaa]);
    let issuer = rustls::Certificate(vec![0x30, 0x02, 0xbb, 0xcc]);
    let chain = chain_from_peer(&[peer, issuer]);
    assert_eq!(chain, vec![CertificateData(vec![0x30, 0x01, 0xaa]), CertificateData(vec![0x30, 0x02, 0xbb, 0xcc])]);
    let store = Certificates::new();
    assert!(store.set(chain));
    let got = store.chain_data().unwrap();
    assert_eq!(got.len(), 2);
    assert_eq!(got[0].0, vec![0x30, 0x01, 0xaa]);
    assert_eq!(got[1].0, vec![0x30, 0x02, 0xbb, 0xcc]);
}

#[test]
fn empty_peer_chain_stays_empty() {
    assert!(chain_from_peer(&[]).is_empty());
}

#[test]
fn empty_chain_is_reported_before_the_key() {
    assert_eq!(credential_error(&[], false), Some(TlsArtifact::CertChain));
    assert_eq!(credential_error(&[], true), Some(TlsArtifact::CertChain));
}

#[test]
fn unusable_key_is_reported_with_a_chain() {
    let chain = [CertificateData(vec![0x30, 0x00])];
    assert_eq!(credential_error(&chain, false), Some(TlsArtifact::PrivateKey));
    assert_eq!(credential_error(&chain, true), None);
}

#[test]
fn peer_without_chain_never_fills_the_store() {
    let store = Certificates::new();
    assert!(!store.fill_from_peer(None));
    assert!(store.chain_data().is_none());
}

#[test]
fn peer_chain_fills_the_store_once_in_order() {
    let store = Certificates::new();
    let reader = store.clone();
    let chain = [rustls::Certificate(vec![1, 1]), rustls::Certificate(vec![2, 2, 2])];
    assert!(store.fill_from_peer(Some(&chain)));
    assert!(!store.fill_from_peer(Some(&[rustls::Certificate(vec![9])])));
    assert_eq!(
        reader.chain_data(),
        Some(&[CertificateData(vec![1, 1]), CertificateData(vec![2, 2, 2])][..])
    );
}

#[test]
fn session_cache_holds_1024_sessions() {
    assert_eq!(SESSION_CACHE_CAPACITY, 1024);
}
