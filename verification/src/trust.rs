//! Ephemeral trust material: self-signed identities for a named server and
//! client, and the transport security configurations assembled from them.
//!
//! The client configuration trusts exactly one anchor — the server's
//! freshly generated certificate — pins TLS 1.3, and presents the client's
//! own identity for mutual authentication. The server configuration presents
//! the server's identity and, deliberately, does not itself validate the
//! client's certificate: the harness exercises the protocol layer, not an
//! authentication policy.
//!
//! Certificates and keys are modelled by their DER bytes; what a
//! configuration trusts or presents is stated over those bytes.

use vstd::multiset::Multiset;
use vstd::prelude::*;

use crate::Error;

verus! {

/// A freshly generated identity: certificate and private key, both as DER
/// bytes, held only in memory and never persisted.
pub struct TrustIdentity {
    /// The self-signed certificate, DER-encoded.
    pub cert_der: Vec<u8>,
    /// The subject's private key, PKCS#8 DER-encoded.
    pub key_der: Vec<u8>,
}

#[verifier::external_type_specification]
#[verifier::external_body]
pub struct ExRootCertStore(rustls::RootCertStore);

#[verifier::external_type_specification]
#[verifier::external_body]
pub struct ExTlsClientConfig(rustls::ClientConfig);

#[verifier::external_type_specification]
#[verifier::external_body]
pub struct ExQuicClientConfig(quinn::crypto::rustls::QuicClientConfig);

#[verifier::external_type_specification]
#[verifier::external_body]
pub struct ExClientConfig(quinn::ClientConfig);

#[verifier::external_type_specification]
#[verifier::external_body]
pub struct ExServerConfig(quinn::ServerConfig);

/// The anchors a root store holds, each as the DER bytes of its certificate.
pub uninterp spec fn anchors_of(s: rustls::RootCertStore) -> Multiset<Seq<u8>>;

/// The anchors a TLS client configuration verifies peers against.
pub uninterp spec fn tls_roots_of(c: rustls::ClientConfig) -> Multiset<Seq<u8>>;

/// The certificate chain a TLS client configuration presents, outermost
/// certificate first, each as its DER bytes.
pub uninterp spec fn tls_chain_of(c: rustls::ClientConfig) -> Seq<Seq<u8>>;

/// The anchors carried by a transport-ready client crypto configuration.
pub uninterp spec fn quic_roots_of(c: quinn::crypto::rustls::QuicClientConfig) -> Multiset<
    Seq<u8>,
>;

/// The chain carried by a transport-ready client crypto configuration.
pub uninterp spec fn quic_chain_of(c: quinn::crypto::rustls::QuicClientConfig) -> Seq<Seq<u8>>;

/// The anchors a transport client configuration verifies servers against.
pub uninterp spec fn client_roots_of(c: quinn::ClientConfig) -> Multiset<Seq<u8>>;

/// The chain a transport client configuration presents.
pub uninterp spec fn client_chain_of(c: quinn::ClientConfig) -> Seq<Seq<u8>>;

/// The chain a transport server configuration presents.
pub uninterp spec fn server_chain_of(c: quinn::ServerConfig) -> Seq<Seq<u8>>;

/// Whether a TLS client configuration offers exactly TLS 1.3.
pub uninterp spec fn tls_pins_latest(c: rustls::ClientConfig) -> bool;

/// Whether a transport-ready client crypto configuration offers exactly
/// TLS 1.3.
pub uninterp spec fn quic_pins_latest(c: quinn::crypto::rustls::QuicClientConfig) -> bool;

/// Whether a transport client configuration offers exactly TLS 1.3.
pub uninterp spec fn client_pins_latest(c: quinn::ClientConfig) -> bool;

/// Whether a transport server configuration demands a certificate from the
/// connecting client.
pub uninterp spec fn server_demands_client_cert(c: quinn::ServerConfig) -> bool;

/// Relies on rcgen::generate_simple_self_signed: a fresh self-signed
/// certificate for the one given subject name, with its key pair. The key
/// material is random, so nothing is stated of the bytes that come back.
#[verifier::external_body]
fn generate_identity_raw(name: &str) -> (r: Result<TrustIdentity, ()>) {
    let ck = rcgen::generate_simple_self_signed(vec![name.to_string()]).map_err(|_| ())?;
    Ok(
        TrustIdentity {
            cert_der: ck.cert.der().to_vec(),
            key_der: ck.key_pair.serialize_der(),
        },
    )
}

/// Relies on rustls::RootCertStore::empty: a store holding no anchors.
#[verifier::external_body]
fn empty_root_store() -> (r: rustls::RootCertStore)
    ensures
        anchors_of(r) == Multiset::<Seq<u8>>::empty(),
{
    rustls::RootCertStore::empty()
}

/// Relies on rustls::RootCertStore::add: on success the given DER
/// certificate joins the store's anchors; on failure (the certificate could
/// not be parsed as a trust anchor) the store is unchanged.
#[verifier::external_body]
fn add_root(store: &mut rustls::RootCertStore, cert_der: &Vec<u8>) -> (r: Result<(), ()>)
    ensures
        r is Ok ==> anchors_of(*final(store)) == anchors_of(*old(store)).insert(cert_der@),
        r is Err ==> anchors_of(*final(store)) == anchors_of(*old(store)),
{
    store.add(rustls::pki_types::CertificateDer::from(cert_der.clone())).map_err(|_| ())
}

/// Relies on rustls::ClientConfig::builder_with_provider (with the ring
/// provider), ConfigBuilder::with_protocol_versions pinned to TLS 1.3 only,
/// with_root_certificates, and with_client_auth_cert: the configuration
/// verifies servers against exactly the store's anchors and presents exactly
/// the given certificate as its chain. Fails when the protocol pin or the
/// private key is rejected.
#[verifier::external_body]
fn tls_client_config(roots: rustls::RootCertStore, cert_der: &Vec<u8>, key_der: &Vec<u8>) -> (r:
    Result<rustls::ClientConfig, ()>)
    ensures
        r is Ok ==> tls_roots_of(r->Ok_0) == anchors_of(roots),
        r is Ok ==> tls_chain_of(r->Ok_0) == seq![cert_der@],
        r is Ok ==> tls_pins_latest(r->Ok_0),
{
    let provider = std::sync::Arc::new(rustls::crypto::ring::default_provider());
    let builder = rustls::ClientConfig::builder_with_provider(provider).with_protocol_versions(
        &[&rustls::version::TLS13],
    ).map_err(|_| ())?;
    let chain = vec![rustls::pki_types::CertificateDer::from(cert_der.clone())];
    let key = rustls::pki_types::PrivatePkcs8KeyDer::from(key_der.clone());
    builder.with_root_certificates(roots).with_client_auth_cert(chain, key.into()).map_err(
        |_| (),
    )
}

/// Relies on QuicClientConfig::try_from(rustls::ClientConfig): the TLS
/// configuration is wrapped unchanged; conversion fails only when the
/// provider offers no usable initial cipher suite.
#[verifier::external_body]
fn to_quic_client_config(c: rustls::ClientConfig) -> (r: Result<
    quinn::crypto::rustls::QuicClientConfig,
    (),
>)
    ensures
        r is Ok ==> quic_roots_of(r->Ok_0) == tls_roots_of(c),
        r is Ok ==> quic_chain_of(r->Ok_0) == tls_chain_of(c),
        r is Ok ==> quic_pins_latest(r->Ok_0) == tls_pins_latest(c),
{
    quinn::crypto::rustls::QuicClientConfig::try_from(c).map_err(|_| ())
}

/// Relies on quinn::ClientConfig::new: the crypto configuration is carried
/// unchanged into the transport client configuration.
#[verifier::external_body]
fn wrap_client_config(c: quinn::crypto::rustls::QuicClientConfig) -> (r: quinn::ClientConfig)
    ensures
        client_roots_of(r) == quic_roots_of(c),
        client_chain_of(r) == quic_chain_of(c),
        client_pins_latest(r) == quic_pins_latest(c),
{
    quinn::ClientConfig::new(std::sync::Arc::new(c))
}

/// Relies on quinn::ServerConfig::with_single_cert: the server presents
/// exactly the given certificate, and the configuration does not require a
/// client certificate. Fails when the private key is rejected.
#[verifier::external_body]
fn server_config_with_cert(cert_der: &Vec<u8>, key_der: &Vec<u8>) -> (r: Result<
    quinn::ServerConfig,
    (),
>)
    ensures
        r is Ok ==> server_chain_of(r->Ok_0) == seq![cert_der@],
        r is Ok ==> !server_demands_client_cert(r->Ok_0),
{
    let chain = vec![rustls::pki_types::CertificateDer::from(cert_der.clone())];
    let key = rustls::pki_types::PrivatePkcs8KeyDer::from(key_der.clone());
    quinn::ServerConfig::with_single_cert(chain, key.into()).map_err(|_| ())
}

/// Generates one fresh self-signed identity for a subject name.
pub fn generate_identity(name: &str) -> (r: Result<TrustIdentity, Error>)
    ensures
        r is Err ==> r->Err_0 == Error::CertGen,
{
    match generate_identity_raw(name) {
        Ok(id) => Ok(id),
        Err(()) => Err(Error::CertGen),
    }
}

/// The assembled trust fixture: both transport configurations, together with
/// the certificates they were built from.
pub struct TrustPair {
    /// The client-side transport configuration.
    pub client: quinn::ClientConfig,
    /// The server-side transport configuration.
    pub server: quinn::ServerConfig,
    /// The server identity's certificate, DER-encoded.
    pub server_cert_der: Vec<u8>,
    /// The client identity's certificate, DER-encoded.
    pub client_cert_der: Vec<u8>,
}

/// What holds of every trust fixture the builder hands out: the client
/// trusts exactly the server's certificate and no other, offers exactly
/// TLS 1.3, and presents exactly the client's own certificate; the server
/// presents exactly its own certificate and — deliberately, the harness
/// exercises the protocol, not an authentication policy — demands none from
/// the client.
pub open spec fn trust_pair_wf(p: TrustPair) -> bool {
    &&& client_roots_of(p.client) == Multiset::<Seq<u8>>::empty().insert(p.server_cert_der@)
    &&& client_chain_of(p.client) == seq![p.client_cert_der@]
    &&& client_pins_latest(p.client)
    &&& server_chain_of(p.server) == seq![p.server_cert_der@]
    &&& !server_demands_client_cert(p.server)
}

/// Generates the two independent self-signed identities and assembles the
/// client and server transport configurations from them. Every failing step
/// is reported as its own error; nothing is retried.
pub fn build_trust_pair(server_name: &str, client_name: &str) -> (r: Result<TrustPair, Error>)
    ensures
        r is Ok ==> trust_pair_wf(r->Ok_0),
        r is Err ==> (r->Err_0 == Error::CertGen || r->Err_0 == Error::TrustAnchor || r->Err_0
            == Error::ClientConfigBuild || r->Err_0 == Error::ConfigConversion || r->Err_0
            == Error::ServerConfigBuild),
{
    let srv = match generate_identity(server_name) {
        Ok(id) => id,
        Err(e) => {
            return Err(e);
        },
    };
    let clt = match generate_identity(client_name) {
        Ok(id) => id,
        Err(e) => {
            return Err(e);
        },
    };
    let mut roots = empty_root_store();
    match add_root(&mut roots, &srv.cert_der) {
        Ok(()) => (),
        Err(()) => {
            return Err(Error::TrustAnchor);
        },
    };
    let tls = match tls_client_config(roots, &clt.cert_der, &clt.key_der) {
        Ok(c) => c,
        Err(()) => {
            return Err(Error::ClientConfigBuild);
        },
    };
    let quic = match to_quic_client_config(tls) {
        Ok(c) => c,
        Err(()) => {
            return Err(Error::ConfigConversion);
        },
    };
    let client = wrap_client_config(quic);
    let server = match server_config_with_cert(&srv.cert_der, &srv.key_der) {
        Ok(c) => c,
        Err(()) => {
            return Err(Error::ServerConfigBuild);
        },
    };
    Ok(
        TrustPair {
            client,
            server,
            server_cert_der: srv.cert_der,
            client_cert_der: clt.cert_der,
        },
    )
}

} // verus!
