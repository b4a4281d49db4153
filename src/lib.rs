//! Connection acceptance for an HTTP server: the accept-loop policy, the TLS
//! overlap-handshake stream and the fill-once peer certificate store.

pub mod certificates;
pub mod incoming;
pub mod poll;
pub mod tls;

pub use certificates::{CertificateData, Certificates};
pub use incoming::{is_connection_error, AcceptStep, Incoming};
pub use poll::map_would_block;
pub use tls::{alpn_protocols, check_credentials, client_auth, credential_error, ClientAuth, TlsArtifact, SESSION_CACHE_CAPACITY, TlsState, TlsStream};
