//! TLS over any transport: the overlap-handshake stream, which is handed out
//! before its handshake completes, and the choices the TLS engine is set up with.

use vstd::prelude::*;

use crate::certificates::{chain_bytes, peer_chain_bytes, CertificateData, Certificates};
use tokio_rustls::server::TlsStream as BareTlsStream;

verus! {

#[verifier::external_type_specification]
#[verifier::external_body]
#[verifier::reject_recursive_types(IO)]
pub struct ExAccept<IO>(tokio_rustls::Accept<IO>);

#[verifier::external_type_specification]
#[verifier::external_body]
#[verifier::reject_recursive_types(IO)]
pub struct ExServerTlsStream<IO>(BareTlsStream<IO>);

#[verifier::external_type_specification]
#[verifier::external_body]
pub struct ExServerConnection(rustls::ServerConnection);

/// Relies on `tokio_rustls::Accept::get_ref`: the raw transport while the
/// handshake still holds it.
pub assume_specification<IO>[ tokio_rustls::Accept::<IO>::get_ref ](
    a: &tokio_rustls::Accept<IO>,
) -> Option<&IO>;

/// Relies on `tokio_rustls::server::TlsStream::get_ref`: the raw transport and
/// the TLS session of an established stream.
pub assume_specification<IO>[ BareTlsStream::<IO>::get_ref ](
    s: &BareTlsStream<IO>,
) -> (&IO, &rustls::ServerConnection);

/// Relies on `rustls::CommonState::peer_certificates` (reached through the
/// session's `Deref`): the chain the peer authenticated with, if any, in
/// protocol order.
#[verifier::external_body]
fn session_peer_certificates(session: &rustls::ServerConnection) -> Option<&[rustls::Certificate]> {
    session.peer_certificates()
}

/// How many sessions the server's resumption cache holds.
pub const SESSION_CACHE_CAPACITY: usize = 1024;

/// The ALPN identifier of HTTP/1.1: the ASCII bytes of `http/1.1`.
pub open spec fn http1_id() -> Seq<u8> {
    seq![104u8, 116, 116, 112, 47, 49, 46, 49]
}

/// The ALPN identifier of HTTP/2: the ASCII bytes of `h2`.
pub open spec fn h2_id() -> Seq<u8> {
    seq![104u8, 50]
}

/// The protocols advertised during negotiation, most preferred first.
pub open spec fn advertised(http2: bool) -> Seq<Seq<u8>> {
    if http2 {
        seq![h2_id(), http1_id()]
    } else {
        seq![http1_id()]
    }
}

/// The ALPN protocol list: HTTP/1.1 always, with HTTP/2 put first when it is
/// supported.
pub fn alpn_protocols(http2: bool) -> (r: Vec<Vec<u8>>)
    ensures
        r@.map_values(|p: Vec<u8>| p@) == advertised(http2),
{
    let http1: Vec<u8> = vec![104u8, 116, 116, 112, 47, 49, 46, 49];
    let mut protocols: Vec<Vec<u8>> = vec![http1];
    if http2 {
        let h2: Vec<u8> = vec![104u8, 50];
        protocols.insert(0, h2);
    }
    assert(protocols@.map_values(|p: Vec<u8>| p@) =~= advertised(http2));
    protocols
}

/// How client certificates are treated during the handshake.
#[derive(PartialEq, Eq, Structural, Clone, Copy, Debug)]
pub enum ClientAuth {
    /// Client certificates are not asked for.
    Disabled,
    /// Clients may present a certificate issued by a configured authority, or none.
    Optional,
    /// Clients must present a certificate issued by a configured authority.
    Mandatory,
}

/// Client authentication follows from whether a CA bundle is configured and
/// whether client certificates are mandatory; without a bundle there is none.
pub fn client_auth(has_ca_certs: bool, mandatory_mtls: bool) -> (r: ClientAuth)
    ensures
        r == (if !has_ca_certs {
            ClientAuth::Disabled
        } else if mandatory_mtls {
            ClientAuth::Mandatory
        } else {
            ClientAuth::Optional
        }),
{
    if !has_ca_certs {
        ClientAuth::Disabled
    } else if mandatory_mtls {
        ClientAuth::Mandatory
    } else {
        ClientAuth::Optional
    }
}

/// The configuration artifact a TLS setup failure is attributed to.
#[derive(PartialEq, Eq, Structural, Clone, Copy, Debug)]
pub enum TlsArtifact {
    /// The server's certificate chain.
    CertChain,
    /// The server's private key.
    PrivateKey,
    /// The CA bundle that verifies client certificates.
    CaCerts,
    /// The engine configuration: cipher suites, protocol versions, key pairing.
    Config,
    /// The session-ticket generator.
    Ticketer,
}

/// The text that opens the message of a setup error for `artifact`.
pub open spec fn artifact_label(artifact: TlsArtifact) -> Seq<char> {
    match artifact {
        TlsArtifact::CertChain => "bad TLS cert chain"@,
        TlsArtifact::PrivateKey => "bad TLS private key"@,
        TlsArtifact::CaCerts => "bad CA cert(s)"@,
        TlsArtifact::Config => "bad TLS config"@,
        TlsArtifact::Ticketer => "bad TLS ticketer"@,
    }
}

impl TlsArtifact {
    /// The text that opens the message of a setup error for this artifact,
    /// naming what failed.
    pub fn label(&self) -> (r: &'static str)
        ensures
            r@ == artifact_label(*self),
    {
        match self {
            TlsArtifact::CertChain => "bad TLS cert chain",
            TlsArtifact::PrivateKey => "bad TLS private key",
            TlsArtifact::CaCerts => "bad CA cert(s)",
            TlsArtifact::Config => "bad TLS config",
            TlsArtifact::Ticketer => "bad TLS ticketer",
        }
    }
}

/// Relies on `rustls::sign::any_supported_type`: whether the engine can sign
/// with the DER-encoded private key `key`.
#[verifier::external_body]
fn engine_accepts_key(key: &Vec<u8>) -> bool {
    rustls::sign::any_supported_type(&rustls::PrivateKey(key.clone())).is_ok()
}

/// The credential the server cannot be set up with, given its certificate
/// chain and whether the engine accepts its private key: an empty chain is
/// reported first, then an unusable key.
pub fn credential_error(chain: &[CertificateData], key_supported: bool) -> (r: Option<TlsArtifact>)
    ensures
        r == (if chain@.len() == 0 {
            Some(TlsArtifact::CertChain)
        } else if !key_supported {
            Some(TlsArtifact::PrivateKey)
        } else {
            None
        }),
{
    if chain.len() == 0 {
        Some(TlsArtifact::CertChain)
    } else if !key_supported {
        Some(TlsArtifact::PrivateKey)
    } else {
        None
    }
}

/// Checks the server's certificate chain and private key before the engine
/// is configured with them. An empty chain is always reported; with a
/// non-empty chain, only the key can be at fault, as the engine judges it.
pub fn check_credentials(chain: &[CertificateData], key: &Vec<u8>) -> (r: Option<TlsArtifact>)
    ensures
        chain@.len() == 0 ==> r == Some(TlsArtifact::CertChain),
        chain@.len() > 0 ==> (r is None || r == Some(TlsArtifact::PrivateKey)),
{
    credential_error(chain, engine_accepts_key(key))
}

/// State of a `TlsStream`.
#[verifier::reject_recursive_types(C)]
pub enum TlsState<C> {
    /// The TLS handshake is taking place; there is no full connection yet.
    Handshaking(tokio_rustls::Accept<C>),
    /// The handshake completed; payload data flows through the stream.
    Streaming(BareTlsStream<C>),
}

/// A TLS connection handed out as soon as the raw transport was accepted. The
/// handshake is driven by the first reads and writes; once it completes, the
/// peer's certificate chain fills the shared store and the stream moves to
/// `Streaming`, never back.
#[verifier::reject_recursive_types(C)]
pub struct TlsStream<C, A> {
    remote: Option<A>,
    phase: TlsState<C>,
    certs: Certificates,
}

impl<C, A> TlsStream<C, A> {
    /// The peer's address, captured when the raw transport was accepted.
    pub closed spec fn remote(&self) -> Option<A> {
        self.remote
    }

    /// The connection's own certificate store, the one the handshake fills.
    pub closed spec fn store(&self) -> Certificates {
        self.certs
    }

    /// The current handshake state.
    pub closed spec fn phase(&self) -> TlsState<C> {
        self.phase
    }

    /// A connection whose handshake has yet to run over the raw transport,
    /// with an empty certificate store.
    pub fn new(remote: Option<A>, accept: tokio_rustls::Accept<C>) -> (r: Self)
        ensures
            r.remote() == remote,
            r.phase() == TlsState::Handshaking(accept),
    {
        TlsStream { remote, phase: TlsState::Handshaking(accept), certs: Certificates::new() }
    }

    /// The peer's address, if it was known at accept time.
    pub fn peer_address(&self) -> (r: &Option<A>)
        ensures
            *r == self.remote(),
    {
        &self.remote
    }

    /// The peer's certificate store. It is always present, whatever the
    /// handshake state: it stays empty until the handshake completes, which
    /// happens before any payload byte can be read.
    pub fn peer_certificates(&self) -> (r: Option<Certificates>)
        ensures
            r == Some(self.store()),
    {
        Some(self.certs.share())
    }

    /// Whether the handshake has yet to complete.
    pub fn is_handshaking(&self) -> (r: bool)
        ensures
            r == self.phase() is Handshaking,
    {
        match &self.phase {
            TlsState::Handshaking(_) => true,
            TlsState::Streaming(_) => false,
        }
    }

    /// The pending handshake, to be driven, while there is one. The variant
    /// cannot change through the returned reference.
    pub fn handshake_mut(&mut self) -> (r: Option<&mut tokio_rustls::Accept<C>>)
        ensures
            old(self).phase() is Handshaking <==> r is Some,
            r matches Some(a) ==> *a == old(self).phase()->Handshaking_0
                && final(self).phase() == TlsState::Handshaking(*final(a)),
            r is None ==> final(self).phase() == old(self).phase(),
            final(self).remote() == old(self).remote(),
            final(self).store() == old(self).store(),
    {
        match &mut self.phase {
            TlsState::Handshaking(accept) => Some(accept),
            TlsState::Streaming(_) => None,
        }
    }

    /// The established stream, once the handshake has completed. The variant
    /// cannot change through the returned reference.
    pub fn stream_mut(&mut self) -> (r: Option<&mut BareTlsStream<C>>)
        ensures
            old(self).phase() is Streaming <==> r is Some,
            r matches Some(st) ==> *st == old(self).phase()->Streaming_0
                && final(self).phase() == TlsState::Streaming(*final(st)),
            r is None ==> final(self).phase() == old(self).phase(),
            final(self).remote() == old(self).remote(),
            final(self).store() == old(self).store(),
    {
        match &mut self.phase {
            TlsState::Handshaking(_) => None,
            TlsState::Streaming(stream) => Some(stream),
        }
    }

    /// The raw transport: the one the handshake still holds, or the one under
    /// the established stream. `None` once a failed handshake consumed it.
    pub fn raw_connection(&self) -> (r: Option<&C>)
        ensures
            self.phase() is Streaming ==> r is Some,
    {
        match &self.phase {
            TlsState::Handshaking(accept) => accept.get_ref(),
            TlsState::Streaming(stream) => Some(stream.get_ref().0),
        }
    }

    /// Fills this connection's certificate store from the chain the peer
    /// presented, as `Certificates::fill_from_peer` does, and tells whether
    /// this call filled it.
    pub fn record_peer_chain(&self, chain: Option<&[rustls::Certificate]>) -> (filled: bool)
        ensures
            filled ==> (chain matches Some(c) && chain_bytes(self.store().filled()) == peer_chain_bytes(c@)),
            chain is None ==> !filled,
    {
        self.certs.fill_from_peer(chain)
    }

    /// Records a completed handshake: the chain the session reports for the
    /// peer goes to `record_peer_chain`, and the connection moves to
    /// `Streaming`, keeping its store.
    pub fn finish_handshake(&mut self, stream: BareTlsStream<C>)
        ensures
            final(self).phase() == TlsState::Streaming(stream),
            final(self).remote() == old(self).remote(),
            final(self).store() == old(self).store(),
    {
        let _ = self.record_peer_chain(session_peer_certificates(stream.get_ref().1));
        self.phase = TlsState::Streaming(stream);
    }
}

} // verus!
