//! The client's trust store, assembled from the platform's native
//! certificate authorities. Native stores often hold ancient or
//! syntactically invalid certificates, so certificates that fail to
//! parse are tolerated and counted, never fatal by themselves; only a
//! store with no usable anchor at all is.

use vstd::prelude::*;

verus! {

/// Declares `rustls::RootCertStore` as an opaque outside type, so the
/// assembled anchors can be carried through to the engine; what the
/// contracts need of it is said through [`root_store_len`].
#[verifier::external_type_specification]
#[verifier::external_body]
pub struct ExRootCertStore(rustls::RootCertStore);

/// Whether rustls accepts the given DER-encoded certificate as a trust
/// anchor; a pure function of the bytes.
pub uninterp spec fn cert_der_parses(der: Seq<u8>) -> bool;

/// How many trust anchors a store holds.
pub uninterp spec fn root_store_len(s: rustls::RootCertStore) -> nat;

/// Relies on `rustls::RootCertStore::empty`: a store holding no
/// anchors.
#[verifier::external_body]
fn root_store_empty() -> (r: rustls::RootCertStore)
    ensures
        root_store_len(r) == 0,
{
    rustls::RootCertStore::empty()
}

/// Relies on `rustls::RootCertStore::add`: it parses the DER
/// certificate, pushes one trust anchor on success, and on failure
/// reports it leaving the store unchanged.
#[verifier::external_body]
fn root_store_add(store: &mut rustls::RootCertStore, der: &Vec<u8>) -> (r: bool)
    ensures
        r == cert_der_parses(der@),
        r ==> root_store_len(*final(store)) == root_store_len(*old(store)) + 1,
        !r ==> root_store_len(*final(store)) == root_store_len(*old(store)),
{
    match store.add(&rustls::Certificate(der.clone())) {
        Ok(_) => true,
        Err(_) => false,
    }
}

/// Relies on `rustls_native_certs::load_native_certs`: it reads the
/// platform's trust store from the environment or disk, so nothing is
/// promised of the outcome.
#[verifier::external_body]
pub fn load_native_cert_ders() -> (r: Option<Vec<Vec<u8>>>) {
    match rustls_native_certs::load_native_certs() {
        Ok(certs) => Some(certs.into_iter().map(|c| c.0).collect()),
        Err(_) => None,
    }
}

/// How many of the given certificates parse as trust anchors.
pub open spec fn spec_valid_count(certs: Seq<Seq<u8>>) -> int
    decreases certs.len(),
{
    if certs.len() == 0 {
        0
    } else {
        spec_valid_count(certs.drop_last()) + if cert_der_parses(certs.last()) {
            1int
        } else {
            0int
        }
    }
}

/// The count never exceeds the number of certificates offered.
pub proof fn lemma_valid_count_bounds(certs: Seq<Seq<u8>>)
    ensures
        0 <= spec_valid_count(certs) <= certs.len(),
    decreases certs.len(),
{
    if certs.len() != 0 {
        lemma_valid_count_bounds(certs.drop_last());
    }
}

/// A trust store assembled for one client: the anchors that parsed,
/// and how many certificates were accepted and how many were ignored.
pub struct TrustStore {
    pub roots: rustls::RootCertStore,
    pub valid: u64,
    pub invalid: u64,
}

/// Assembles a trust store from DER-encoded certificates in a
/// best-effort fashion: every certificate that parses becomes an
/// anchor, every one that does not is counted and ignored.
pub fn assemble_trust_store(certs: &Vec<Vec<u8>>) -> (r: TrustStore)
    ensures
        r.valid == spec_valid_count(certs.deep_view()),
        r.valid + r.invalid == certs@.len(),
        root_store_len(r.roots) == r.valid,
{
    let mut roots = root_store_empty();
    let mut valid: u64 = 0;
    let mut invalid: u64 = 0;
    let n = certs.len();
    proof {
        assert(certs.deep_view().take(0) =~= Seq::<Seq<u8>>::empty());
    }
    for i in 0..n
        invariant
            n == certs.len(),
            n == certs.deep_view().len(),
            valid == spec_valid_count(certs.deep_view().take(i as int)),
            valid + invalid == i,
            root_store_len(roots) == valid,
    {
        let ghost longer = certs.deep_view().take(i as int + 1);
        proof {
            assert(longer.drop_last() =~= certs.deep_view().take(i as int));
            assert(longer.last() == certs@[i as int]@);
            lemma_valid_count_bounds(certs.deep_view().take(i as int));
        }
        if root_store_add(&mut roots, &certs[i]) {
            valid = valid + 1;
        } else {
            invalid = invalid + 1;
        }
    }
    proof {
        assert(certs.deep_view().take(n as int) =~= certs.deep_view());
    }
    TrustStore { roots, valid, invalid }
}

} // verus!
