//! TLS material of the MQTT connection: the trusted roots read from a CA
//! file, checked and bound into a certificate verifier.
use rumqttc::tokio_rustls::rustls::client::{VerifierBuilderError, WebPkiServerVerifier};
use rumqttc::tokio_rustls::rustls::{ClientConfig, RootCertStore};
use rumqttc::TlsConfiguration;
use rustls_pki_types::pem::PemObject;
use rustls_pki_types::CertificateDer;
use std::sync::Arc;
use vstd::prelude::*;

verus! {

/// The TLS configuration that the MQTT client connects with. It is carried
/// through and never looked into.
#[verifier::external_type_specification]
#[verifier::external_body]
pub struct ExTlsConfiguration(TlsConfiguration);

/// The trust anchor store of rustls. Of its contents only the number of
/// anchors is spoken of, under the name [`trust_anchor_count`].
#[verifier::external_type_specification]
#[verifier::external_body]
pub struct ExRootCertStore(RootCertStore);

/// The server certificate verifier of rustls, bound to a trust anchor store.
#[verifier::external_type_specification]
#[verifier::external_body]
pub struct ExWebPkiServerVerifier(WebPkiServerVerifier);

/// Why rustls could not build a certificate verifier.
#[verifier::external_type_specification]
#[verifier::external_body]
pub struct ExVerifierBuilderError(VerifierBuilderError);

/// Why rustls refused a certificate.
#[verifier::external_type_specification]
#[verifier::external_body]
pub struct ExRustlsError(rumqttc::tokio_rustls::rustls::Error);

/// Why a byte string is not PEM.
#[verifier::external_type_specification]
#[verifier::external_body]
pub struct ExPemError(rustls_pki_types::pem::Error);

/// What became of reading the CA file that the caller named.
#[derive(Debug, Clone, PartialEq, Eq)]
pub enum CaFile {
    /// The file is missing or could not be read.
    Unreadable,
    /// The whole content of the file.
    Contents(Vec<u8>),
}

/// Why no TLS material could be built.
#[derive(Debug, Clone, Copy, PartialEq, Eq, Structural)]
pub enum TlsError {
    /// The CA file is unreadable or empty.
    IoError,
    /// The CA file holds no certificate, or is not well-formed PEM.
    CertParseError,
    /// A certificate of the CA file cannot serve as a trust anchor.
    TrustStoreError,
    /// No verifier could be bound to the trust anchors.
    VerifierBuildError,
}

/// A client certificate and its private key, for mutual TLS. It has no
/// `Debug`, so that the key stays out of logs.
#[derive(Clone, PartialEq, Eq)]
pub struct ClientIdentity {
    pub certificate: Vec<u8>,
    pub key: Vec<u8>,
}

/// What a TLS connection trusts and presents: the root certificates, in DER
/// and in the order of the CA file, and the client identity if there is one.
/// Without roots the platform's trust store is meant.
#[derive(Clone)]
pub struct TlsMaterial {
    roots: Vec<Vec<u8>>,
    client_identity: Option<ClientIdentity>,
    configuration: Option<TlsConfiguration>,
}

/// The DER encodings of a list of certificates.
pub open spec fn der_encodings(certificates: Seq<Vec<u8>>) -> Seq<Seq<u8>> {
    certificates.map_values(|der: Vec<u8>| der@)
}

impl TlsMaterial {
    /// The trusted root certificates, each in DER.
    pub closed spec fn trusted_roots(self) -> Seq<Seq<u8>> {
        der_encodings(self.roots@)
    }

    /// The client certificate and key, if the client authenticates itself.
    pub closed spec fn identity(self) -> Option<(Seq<u8>, Seq<u8>)> {
        match self.client_identity {
            Some(identity) => Some((identity.certificate@, identity.key@)),
            None => None,
        }
    }

    /// The configuration bound to the roots, where there are any.
    pub closed spec fn bound_configuration(self) -> Option<TlsConfiguration> {
        self.configuration
    }

    /// Material without roots stands for the platform's trust store.
    pub open spec fn is_platform_default(self) -> bool {
        self.trusted_roots().len() == 0
    }

    /// Every root is a trust anchor, a configuration is bound exactly where
    /// there are roots, and a client identity has both its parts.
    pub open spec fn wf(self) -> bool {
        &&& forall|i: int|
            0 <= i < self.trusted_roots().len() ==> is_trust_anchor(
                #[trigger] self.trusted_roots()[i],
            )
        &&& self.bound_configuration().is_some() <==> !self.is_platform_default()
        &&& match self.identity() {
            Some((certificate, key)) => certificate.len() > 0 && key.len() > 0,
            None => true,
        }
    }

    /// The material that trusts what the platform trusts, without ALPN
    /// override or client identity.
    pub fn platform_default() -> (material: TlsMaterial)
        ensures
            material.wf(),
            material.is_platform_default(),
            material.trusted_roots() == Seq::<Seq<u8>>::empty(),
            material.identity() is None,
            material.bound_configuration() is None,
    {
        TlsMaterial { roots: Vec::new(), client_identity: None, configuration: None }
    }

    /// The trusted root certificates, each in DER.
    pub fn roots(&self) -> (roots: &Vec<Vec<u8>>)
        ensures
            der_encodings(roots@) == self.trusted_roots(),
    {
        &self.roots
    }

    /// The client identity, if there is one.
    pub fn client_identity(&self) -> (identity: &Option<ClientIdentity>)
        ensures
            match *identity {
                Some(found) => self.identity() == Some((found.certificate@, found.key@)),
                None => self.identity() is None,
            },
    {
        &self.client_identity
    }

    /// Whether the platform's trust store is meant.
    pub fn uses_platform_trust(&self) -> (platform: bool)
        ensures
            platform == self.is_platform_default(),
    {
        self.roots.len() == 0
    }

    /// Gives up the material for the configuration bound to its roots.
    /// There is none where the platform's trust store is meant.
    pub fn into_configuration(self) -> (configuration: Option<TlsConfiguration>)
        ensures
            configuration == self.bound_configuration(),
    {
        self.configuration
    }
}

/// The certificates of a PEM text, in DER and in the order of the text: what
/// `CertificateDer::pem_slice_iter` yields when it is run to its end. `None`
/// where the text is ill-formed.
pub uninterp spec fn pem_certificate_ders(pem: Seq<u8>) -> Option<Seq<Seq<u8>>>;

/// Whether `RootCertStore::add` accepts a certificate given in DER.
pub uninterp spec fn is_trust_anchor(der: Seq<u8>) -> bool;

/// The number of trust anchors in a store: `RootCertStore::len`.
pub uninterp spec fn trust_anchor_count(store: RootCertStore) -> nat;

/// Runs `CertificateDer::pem_slice_iter` over the text and collects the
/// certificate sections up to the first error. The result is a function of
/// the text alone and is known by its name only.
#[verifier::external_body]
fn pem_certificates(pem: &Vec<u8>) -> (parsed: Result<Vec<Vec<u8>>, rustls_pki_types::pem::Error>)
    ensures
        match parsed {
            Ok(certificates) => pem_certificate_ders(pem@) == Some(der_encodings(certificates@)),
            Err(_) => pem_certificate_ders(pem@) is None,
        },
{
    let sections = CertificateDer::pem_slice_iter(pem.as_slice()).collect::<Result<Vec<_>, _>>()?;
    Ok(sections.iter().map(|der| der.as_ref().to_vec()).collect())
}

/// Calls `RootCertStore::empty`, which makes a store without anchors.
#[verifier::external_body]
fn empty_root_store() -> (store: RootCertStore)
    ensures
        trust_anchor_count(store) == 0,
{
    RootCertStore::empty()
}

/// Calls `RootCertStore::add`. It derives a trust anchor from the
/// certificate and appends it to the store, or fails and leaves the store as
/// it was. Which of the two depends on the certificate alone.
#[verifier::external_body]
fn add_root(store: &mut RootCertStore, der: &Vec<u8>) -> (added: Result<
    (),
    rumqttc::tokio_rustls::rustls::Error,
>)
    ensures
        added is Ok <==> is_trust_anchor(der@),
        trust_anchor_count(*final(store)) == trust_anchor_count(*old(store)) + (if added is Ok {
            1nat
        } else {
            0nat
        }),
{
    store.add(CertificateDer::from(der.clone()))
}

/// Calls `WebPkiServerVerifier::builder` and `build` on it, without
/// revocation lists. The build fails exactly where the store is empty.
#[verifier::external_body]
fn server_verifier(store: RootCertStore) -> (built: Result<
    Arc<WebPkiServerVerifier>,
    VerifierBuilderError,
>)
    ensures
        built is Ok <==> trust_anchor_count(store) > 0,
{
    WebPkiServerVerifier::builder(Arc::new(store)).build()
}

/// Builds the rustls client configuration that checks servers with the
/// given verifier and presents no client certificate, and hands it to
/// rumqttc as `TlsConfiguration::Rustls`.
#[verifier::external_body]
fn verifying_configuration(verifier: Arc<WebPkiServerVerifier>) -> (configuration: TlsConfiguration) {
    let config = ClientConfig::builder()
        .dangerous()
        .with_custom_certificate_verifier(verifier)
        .with_no_client_auth();
    TlsConfiguration::Rustls(Arc::new(config))
}

/// The roots that a CA file yields, or the reason why it yields none.
/// Without a CA file there are no roots and no failure.
pub open spec fn roots_of(ca: Option<CaFile>) -> Result<Seq<Seq<u8>>, TlsError> {
    match ca {
        None => Ok(Seq::empty()),
        Some(CaFile::Unreadable) => Err(TlsError::IoError),
        Some(CaFile::Contents(pem)) => roots_of_pem(pem@),
    }
}

/// The roots that the content of a CA file yields: all of its certificates,
/// provided that it is not empty, is well-formed PEM with at least one
/// certificate, and that each certificate is a trust anchor.
pub open spec fn roots_of_pem(pem: Seq<u8>) -> Result<Seq<Seq<u8>>, TlsError> {
    if pem.len() == 0 {
        Err(TlsError::IoError)
    } else {
        match pem_certificate_ders(pem) {
            None => Err(TlsError::CertParseError),
            Some(ders) => {
                if ders.len() == 0 {
                    Err(TlsError::CertParseError)
                } else if exists|i: int| 0 <= i < ders.len() && !is_trust_anchor(#[trigger] ders[i]) {
                    Err(TlsError::TrustStoreError)
                } else {
                    Ok(ders)
                }
            },
        }
    }
}

/// A CA file that is asked for is never replaced by the platform's trust:
/// it yields at least one root, or a failure.
pub proof fn requested_ca_is_never_defaulted(ca: CaFile)
    ensures
        match roots_of(Some(ca)) {
            Ok(roots) => roots.len() > 0,
            Err(_) => true,
        },
        roots_of(Some(CaFile::Unreadable)) == Err::<Seq<Seq<u8>>, TlsError>(TlsError::IoError),
        roots_of(None) == Ok::<Seq<Seq<u8>>, TlsError>(Seq::empty()),
{
}

/// A CA file of well-formed PEM whose certificates are all trust anchors
/// yields exactly its certificates, in its order.
pub proof fn well_formed_ca_yields_its_certificates(pem: Seq<u8>, certificates: Seq<Seq<u8>>)
    requires
        pem_certificate_ders(pem) == Some(certificates),
        certificates.len() > 0,
        forall|i: int| 0 <= i < certificates.len() ==> is_trust_anchor(#[trigger] certificates[i]),
    ensures
        pem.len() > 0 ==> roots_of_pem(pem) == Ok::<Seq<Seq<u8>>, TlsError>(certificates),
{
}

/// Builds the TLS material of a connection.
///
/// Without a CA file the platform's trust store is meant, and nothing can
/// fail. With one, its certificates become the only roots: an unreadable or
/// empty file, ill-formed PEM, a file without certificate and a certificate
/// that is no trust anchor are each refused, never replaced by the
/// platform's trust. ALPN protocols and client authentication are accepted
/// and not applied: the material has no client identity.
pub fn configure_tls(
    ca: Option<CaFile>,
    alpn: Option<Vec<Vec<u8>>>,
    client_auth: Option<(Vec<u8>, Vec<u8>)>,
) -> (built: Result<TlsMaterial, TlsError>)
    ensures
        match built {
            Ok(material) => {
                &&& roots_of(ca) == Ok::<Seq<Seq<u8>>, TlsError>(material.trusted_roots())
                &&& material.wf()
                &&& material.identity() is None
            },
            Err(error) => roots_of(ca) == Err::<Seq<Seq<u8>>, TlsError>(error),
        },
        ca is None ==> built is Ok && built->Ok_0.is_platform_default()
            && built->Ok_0.bound_configuration() is None,
        ca == Some(CaFile::Unreadable) ==> built is Err && built->Err_0 == TlsError::IoError,
        ca is Some && built is Ok ==> !built->Ok_0.is_platform_default(),
{
    let pem = match ca {
        None => {
            return Ok(TlsMaterial::platform_default());
        },
        Some(CaFile::Unreadable) => {
            return Err(TlsError::IoError);
        },
        Some(CaFile::Contents(pem)) => pem,
    };
    if pem.len() == 0 {
        return Err(TlsError::IoError);
    }
    let roots = match pem_certificates(&pem) {
        Ok(roots) => roots,
        Err(_) => {
            return Err(TlsError::CertParseError);
        },
    };
    if roots.len() == 0 {
        return Err(TlsError::CertParseError);
    }
    let mut store = empty_root_store();
    let mut i: usize = 0;
    while i < roots.len()
        invariant
            i <= roots.len(),
            ca == Some(CaFile::Contents(pem)),
            pem@.len() > 0,
            pem_certificate_ders(pem@) == Some(der_encodings(roots@)),
            trust_anchor_count(store) == i,
            forall|j: int| 0 <= j < i ==> is_trust_anchor(#[trigger] der_encodings(roots@)[j]),
        decreases roots.len() - i,
    {
        match add_root(&mut store, &roots[i]) {
            Ok(()) => {},
            Err(_) => {
                assert(!is_trust_anchor(der_encodings(roots@)[i as int]));
                return Err(TlsError::TrustStoreError);
            },
        }
        i += 1;
    }
    let verifier = match server_verifier(store) {
        Ok(verifier) => verifier,
        Err(_) => {
            return Err(TlsError::VerifierBuildError);
        },
    };
    let configuration = verifying_configuration(verifier);
    Ok(TlsMaterial { roots, client_identity: None, configuration: Some(configuration) })
}

} // verus!
