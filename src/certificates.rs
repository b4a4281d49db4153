//! Peer certificate data and the fill-once store that shares it.

use vstd::prelude::*;

use std::sync::Arc;

verus! {

#[verifier::external_type_specification]
#[verifier::external_body]
#[verifier::reject_recursive_types(T)]
pub struct ExStorage<T>(state::Storage<T>);

#[verifier::external_type_specification]
pub struct ExRustlsCertificate(rustls::Certificate);

/// Relies on `state::Storage::new`: an empty fill-once cell.
pub assume_specification<T>[ state::Storage::<T>::new ]() -> state::Storage<T>;

/// Raw, DER-encoded X.509 certificate data.
#[derive(Clone, Debug, PartialEq, Eq, Hash, PartialOrd, Ord)]
pub struct CertificateData(pub Vec<u8>);

/// The peer's certificate chain, shared between the task that completes the
/// TLS handshake and the readers of the connection's credentials. The store
/// is filled at most once: the first fill wins and later fills are ignored.
/// Its contracts speak of `filled`, the one chain the store is ever filled
/// with: a fill that succeeds was made with it, and every read that finds the
/// store filled returns it. That it is still empty cannot be stated here.
#[derive(Clone)]
pub struct Certificates(Arc<state::Storage<Vec<CertificateData>>>);

/// The one chain a fill-once cell is ever filled with. Whatever call fills it
/// first decides it, and no later call changes it.
pub uninterp spec fn filled_chain(s: state::Storage<Vec<CertificateData>>) -> Seq<CertificateData>;

/// Relies on `state::Storage::set`: it fills the cell with `value` and returns
/// `true` only when the cell was empty; a filled cell is never changed again.
#[verifier::external_body]
fn storage_set(s: &state::Storage<Vec<CertificateData>>, value: Vec<CertificateData>) -> (r: bool)
    ensures
        r ==> filled_chain(*s) == value@,
{
    s.set(value)
}

/// Relies on `state::Storage::try_get`: once the cell is filled it returns
/// the value it was filled with, before that `None`.
#[verifier::external_body]
fn storage_try_get(s: &state::Storage<Vec<CertificateData>>) -> (r: Option<&Vec<CertificateData>>)
    ensures
        r matches Some(v) ==> v@ == filled_chain(*s),
{
    s.try_get()
}

/// The certificate data `chain` holds, in order.
pub open spec fn chain_bytes(chain: Seq<CertificateData>) -> Seq<Seq<u8>> {
    chain.map_values(|c: CertificateData| c.0@)
}

/// The certificate data a TLS engine reports, in order.
pub open spec fn peer_chain_bytes(chain: Seq<rustls::Certificate>) -> Seq<Seq<u8>> {
    chain.map_values(|c: rustls::Certificate| c.0@)
}

/// Copies a chain as the TLS engine reports it into certificate data, keeping
/// the order: the peer's own certificate first, then its issuer, and so on.
pub fn chain_from_peer(certs: &[rustls::Certificate]) -> (r: Vec<CertificateData>)
    ensures
        chain_bytes(r@) == peer_chain_bytes(certs@),
{
    let mut r: Vec<CertificateData> = Vec::new();
    let mut i: usize = 0;
    while i < certs.len()
        invariant
            i <= certs@.len(),
            r@.len() == i,
            forall|j: int| 0 <= j < i ==> #[trigger] r@[j].0@ == certs@[j].0@,
        decreases certs@.len() - i,
    {
        let bytes = certs[i].0.clone();
        assert(bytes@ == certs@[i as int].0@);
        r.push(CertificateData(bytes));
        i = i + 1;
    }
    assert(chain_bytes(r@) =~= peer_chain_bytes(certs@));
    r
}

/// Once a store, through any of its handles, has been filled with `first`, a
/// later fill with a different chain cannot succeed (`set` reports success
/// only with the store's one chain), and every read that finds the store
/// filled returns `first`.
pub proof fn first_fill_wins(c: Certificates, handle: Certificates, first: Seq<CertificateData>, later: Seq<CertificateData>)
    requires
        c.filled() == first,
        handle == c,
        later != first,
    ensures
        handle.filled() == first,
        handle.filled() != later,
{
}

impl Certificates {
    /// The one chain this store is ever filled with, shared by every handle
    /// on it.
    pub closed spec fn filled(&self) -> Seq<CertificateData> {
        filled_chain(*self.0)
    }

    /// An empty store.
    pub fn new() -> (r: Certificates) {
        Certificates(Arc::new(state::Storage::new()))
    }

    /// Fills the store with `data` unless it was filled before, and tells
    /// whether this call filled it.
    pub fn set(&self, data: Vec<CertificateData>) -> (r: bool)
        ensures
            r ==> self.filled() == data@,
    {
        storage_set(&*self.0, data)
    }

    /// Fills the store with the chain a TLS engine reports for the peer, in
    /// protocol order, if the peer presented one and the store was empty.
    /// Tells whether this call filled it; without a chain it never does.
    pub fn fill_from_peer(&self, chain: Option<&[rustls::Certificate]>) -> (filled: bool)
        ensures
            filled ==> (chain matches Some(c) && chain_bytes(self.filled()) == peer_chain_bytes(c@)),
            chain is None ==> !filled,
    {
        match chain {
            Some(c) => self.set(chain_from_peer(c)),
            None => false,
        }
    }

    /// Another handle on this same store.
    /// Relies on `Arc::clone`: the clone points at the same allocation, so a
    /// fill through either handle is seen through both.
    #[verifier::external_body]
    pub(crate) fn share(&self) -> (r: Certificates)
        ensures
            r == *self,
    {
        Certificates(Arc::clone(&self.0))
    }

    /// The certificate chain, once the store has been filled.
    pub fn chain_data(&self) -> (r: Option<&[CertificateData]>)
        ensures
            r matches Some(v) ==> v@ == self.filled(),
    {
        match storage_try_get(&*self.0) {
            Some(v) => Some(v.as_slice()),
            None => None,
        }
    }
}

} // verus!
