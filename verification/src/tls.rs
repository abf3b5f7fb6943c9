//! Server TLS material: what a certificate file, a key file and an optional
//! client CA bundle must hold before a TLS context is built from them.
//!
//! The certificate file must hold exactly one certificate and the key file
//! exactly one private key; PEM sections that cannot be decoded are skipped.
//! With a client CA bundle the server requires and verifies client
//! certificates, so the bundle must yield at least one trust anchor.
//!
//! PEM decoding, key format detection and the construction of the TLS context
//! are done by `rustls-pemfile`, `rustls-pki-types` and `rustls`. The functions
//! of this module that call them are marked `external_body`: their contracts
//! are believed, not proved.

use rustls::server::WebPkiClientVerifier;
use rustls::RootCertStore;
use rustls::ServerConfig;
use rustls_pemfile::Item;
use rustls_pki_types::CertificateDer;
use rustls_pki_types::PrivateKeyDer;
use std::sync::Arc;
use vstd::prelude::*;
use vstd::slice::slice_to_vec;

verus! {

/// The TLS server configuration of `rustls`, opaque to the verifier.
#[verifier::external_type_specification]
#[verifier::external_body]
pub struct ExServerConfig(ServerConfig);

/// The trust anchor store of `rustls`, opaque to the verifier.
#[verifier::external_type_specification]
#[verifier::external_body]
pub struct ExRootCertStore(RootCertStore);

/// The private key type of `rustls-pki-types`, opaque to the verifier.
#[verifier::external_type_specification]
#[verifier::external_body]
pub struct ExPrivateKeyDer<'a>(PrivateKeyDer<'a>);

/// Why TLS material was refused.
#[derive(Clone, Debug, PartialEq, Eq)]
pub enum TlsError {
    /// The certificate file holds more than one certificate.
    MultipleCertificates,
    /// The certificate file holds no certificate.
    NoCertificate,
    /// The key file holds no private key.
    NoKey,
    /// The key file holds more than one private key.
    MultipleKeys,
    /// The private key is in none of the supported DER encodings.
    InvalidKey,
    /// No certificate of the client CA bundle is usable as a trust anchor.
    NoClientTrustAnchors,
    /// The TLS library refused the material; the text is its explanation.
    Rejected(String),
}

/// What a PEM section of a key file turned out to be.
#[derive(Clone, Copy, Debug, PartialEq, Eq, Structural)]
pub enum PemKind {
    /// `RSA PRIVATE KEY`
    Pkcs1Key,
    /// `PRIVATE KEY`
    Pkcs8Key,
    /// `EC PRIVATE KEY`
    Sec1Key,
    /// A well-formed section that is not a private key.
    Other,
    /// A section that could not be decoded.
    Unreadable,
}

/// One PEM section: its kind and, for a private key, its DER bytes. A key is
/// a secret, so the type cannot be printed.
#[derive(Clone, PartialEq, Eq)]
pub struct PemItem {
    pub kind: PemKind,
    pub der: Vec<u8>,
}

/// The DER encoding of a private key.
#[derive(Clone, Copy, Debug, PartialEq, Eq, Structural)]
pub enum KeyFormat {
    Pkcs1,
    Sec1,
    Pkcs8,
}

/// A private key together with the encoding it was recognised as. The key is
/// a secret, so the type cannot be printed.
#[derive(Clone, PartialEq, Eq)]
pub struct ServerKey {
    pub format: KeyFormat,
    pub der: Vec<u8>,
}

/// Everything a TLS context is built from, already checked. It holds the
/// private key, so the type cannot be printed.
#[derive(Clone, PartialEq, Eq)]
pub struct ServerMaterial {
    /// The server certificate: at most one, and none where the file held none.
    pub chain: Vec<Vec<u8>>,
    pub key: ServerKey,
    /// The certificates of the client CA bundle, when mutual TLS is wanted.
    pub client_cas: Option<Vec<Vec<u8>>>,
}

impl View for PemItem {
    type V = (PemKind, Seq<u8>);

    open spec fn view(&self) -> (PemKind, Seq<u8>) {
        (self.kind, self.der@)
    }
}

impl View for ServerKey {
    type V = (KeyFormat, Seq<u8>);

    open spec fn view(&self) -> (KeyFormat, Seq<u8>) {
        (self.format, self.der@)
    }
}

/// The mathematical content of [`ServerMaterial`].
pub struct MaterialView {
    pub chain: Seq<Seq<u8>>,
    pub key: (KeyFormat, Seq<u8>),
    pub client_cas: Option<Seq<Seq<u8>>>,
}

impl View for ServerMaterial {
    type V = MaterialView;

    open spec fn view(&self) -> MaterialView {
        MaterialView {
            chain: ders(self.chain@),
            key: self.key@,
            client_cas: match self.client_cas {
                Some(cas) => Some(ders(cas@)),
                None => None,
            },
        }
    }
}

/// The byte strings held by a list of buffers.
pub open spec fn ders(buffers: Seq<Vec<u8>>) -> Seq<Seq<u8>> {
    buffers.map_values(|der: Vec<u8>| der@)
}

/// The content of a list of optional buffers.
pub open spec fn entries_view(entries: Seq<Option<Vec<u8>>>) -> Seq<Option<Seq<u8>>> {
    entries.map_values(
        |entry: Option<Vec<u8>>|
            match entry {
                Some(der) => Some(der@),
                None => None,
            },
    )
}

/// The content of a list of PEM items.
pub open spec fn items_view(items: Seq<PemItem>) -> Seq<(PemKind, Seq<u8>)> {
    items.map_values(|item: PemItem| item@)
}

/// The certificates found in a PEM text, in order: what
/// `rustls_pemfile::certs` yields, each certificate as its DER bytes, and
/// `None` where it yields an error.
pub uninterp spec fn pem_certificates(pem: Seq<u8>) -> Seq<Option<Seq<u8>>>;

/// The items found in a PEM text, in order: what `rustls_pemfile::read_all`
/// yields, each item as its kind, with its DER bytes where it is a private
/// key and with no bytes where it is not.
pub uninterp spec fn pem_items(pem: Seq<u8>) -> Seq<(PemKind, Seq<u8>)>;

/// How many of the given certificates `rustls` accepts as trust anchors: the
/// first number that `RootCertStore::add_parsable_certificates` returns for
/// them.
pub uninterp spec fn trust_anchor_count(certificates: Seq<Seq<u8>>) -> nat;

/// The entries that were decoded, in order.
pub open spec fn readable_certificates(entries: Seq<Option<Seq<u8>>>) -> Seq<Seq<u8>>
    decreases entries.len(),
{
    if entries.len() == 0 {
        Seq::empty()
    } else {
        let earlier = readable_certificates(entries.drop_last());
        match entries.last() {
            Some(der) => earlier.push(der),
            None => earlier,
        }
    }
}

impl PemKind {
    /// Whether a section of this kind is a private key.
    pub open spec fn is_key(self) -> bool {
        self == PemKind::Pkcs1Key || self == PemKind::Pkcs8Key || self == PemKind::Sec1Key
    }
}

/// The private keys among the sections, in order.
pub open spec fn private_keys(items: Seq<(PemKind, Seq<u8>)>) -> Seq<Seq<u8>>
    decreases items.len(),
{
    if items.len() == 0 {
        Seq::empty()
    } else {
        let earlier = private_keys(items.drop_last());
        if items.last().0.is_key() {
            earlier.push(items.last().1)
        } else {
            earlier
        }
    }
}

/// Where the content of the outer DER SEQUENCE starts: after the tag and a
/// length in short form (one byte) or long form (one byte and as many more as
/// its low seven bits say).
pub open spec fn der_body_offset(der: Seq<u8>) -> int
    recommends
        der.len() >= 2,
{
    if der[1] >= 128 {
        2 + (der[1] - 128)
    } else {
        2
    }
}

/// The encoding a private key is recognised as, from the first bytes of its
/// DER: a SEQUENCE that starts with a one-byte INTEGER, followed by another
/// SEQUENCE (PKCS#8), or of value 0 (PKCS#1), or of value 1 (SEC1).
pub open spec fn key_format(der: Seq<u8>) -> Option<KeyFormat> {
    if der.len() < 2 || der[0] != 0x30 || der_body_offset(der) > der.len() {
        None
    } else {
        let body = der.subrange(der_body_offset(der), der.len() as int);
        if body.len() >= 4 && body[0] == 0x02 && body[1] == 0x01 && body[3] == 0x30 {
            Some(KeyFormat::Pkcs8)
        } else if body.len() >= 3 && body[0] == 0x02 && body[1] == 0x01 && body[2] == 0x00 {
            Some(KeyFormat::Pkcs1)
        } else if body.len() >= 3 && body[0] == 0x02 && body[1] == 0x01 && body[2] == 0x01 {
            Some(KeyFormat::Sec1)
        } else {
            None
        }
    }
}

/// The server certificate chosen from the entries of a certificate file.
pub open spec fn certificate_choice(entries: Seq<Option<Seq<u8>>>) -> Result<
    Seq<Seq<u8>>,
    TlsError,
> {
    let found = readable_certificates(entries);
    if found.len() > 1 {
        Err(TlsError::MultipleCertificates)
    } else {
        Ok(found)
    }
}

/// The private key chosen from the sections of a key file.
pub open spec fn key_choice(items: Seq<(PemKind, Seq<u8>)>) -> Result<
    (KeyFormat, Seq<u8>),
    TlsError,
> {
    let keys = private_keys(items);
    if keys.len() == 0 {
        Err(TlsError::NoKey)
    } else if keys.len() > 1 {
        Err(TlsError::MultipleKeys)
    } else {
        match key_format(keys[0]) {
            Some(format) => Ok((format, keys[0])),
            None => Err(TlsError::InvalidKey),
        }
    }
}

/// The material chosen from the decoded content of the three files. The
/// certificate file is judged before the key file, and the first fault is the
/// one reported. The client CA bundle is taken as it is.
pub open spec fn material_choice(
    cert_entries: Seq<Option<Seq<u8>>>,
    key_items: Seq<(PemKind, Seq<u8>)>,
    client_ca_entries: Option<Seq<Option<Seq<u8>>>>,
) -> Result<MaterialView, TlsError> {
    match certificate_choice(cert_entries) {
        Err(e) => Err(e),
        Ok(chain) => match key_choice(key_items) {
            Err(e) => Err(e),
            Ok(key) => Ok(
                MaterialView {
                    chain,
                    key,
                    client_cas: match client_ca_entries {
                        Some(entries) => Some(readable_certificates(entries)),
                        None => None,
                    },
                },
            ),
        },
    }
}

/// The content of the outcome of a choice.
pub open spec fn ders_result(res: Result<Vec<Vec<u8>>, TlsError>) -> Result<
    Seq<Seq<u8>>,
    TlsError,
> {
    match res {
        Ok(list) => Ok(ders(list@)),
        Err(e) => Err(e),
    }
}

/// The content of the outcome of a key choice.
pub open spec fn key_result(res: Result<ServerKey, TlsError>) -> Result<
    (KeyFormat, Seq<u8>),
    TlsError,
> {
    match res {
        Ok(key) => Ok(key@),
        Err(e) => Err(e),
    }
}

/// The content of the outcome of a material choice.
pub open spec fn material_result(res: Result<ServerMaterial, TlsError>) -> Result<
    MaterialView,
    TlsError,
> {
    match res {
        Ok(material) => Ok(material@),
        Err(e) => Err(e),
    }
}

/// Calls `rustls_pemfile::certs` on an in-memory PEM text and hands out every
/// item it yields: the DER bytes of a certificate, or `None` where it reported
/// an error. Believed: the items are those named by [`pem_certificates`].
#[verifier::external_body]
fn read_certificates(pem: &[u8]) -> (entries: Vec<Option<Vec<u8>>>)
    ensures
        entries_view(entries@) == pem_certificates(pem@),
{
    let mut reader = pem;
    rustls_pemfile::certs(&mut reader).map(|entry| entry.ok().map(|der| der.to_vec())).collect()
}

/// Calls `rustls_pemfile::read_all` on an in-memory PEM text and hands out
/// every item it yields, private keys with their DER bytes. Believed: the
/// items are those named by [`pem_items`].
#[verifier::external_body]
fn read_items(pem: &[u8]) -> (items: Vec<PemItem>)
    ensures
        items_view(items@) == pem_items(pem@),
{
    let mut reader = pem;
    rustls_pemfile::read_all(&mut reader).map(|entry| match entry {
        Ok(Item::Pkcs1Key(k)) => PemItem { kind: PemKind::Pkcs1Key, der: k.secret_pkcs1_der().to_vec() },
        Ok(Item::Pkcs8Key(k)) => PemItem { kind: PemKind::Pkcs8Key, der: k.secret_pkcs8_der().to_vec() },
        Ok(Item::Sec1Key(k)) => PemItem { kind: PemKind::Sec1Key, der: k.secret_sec1_der().to_vec() },
        Ok(_) => PemItem { kind: PemKind::Other, der: Vec::new() },
        Err(_) => PemItem { kind: PemKind::Unreadable, der: Vec::new() },
    }).collect()
}

/// Calls `PrivateKeyDer::try_from` on DER bytes and reports the variant it
/// chose. Believed: it inspects the leading bytes as [`key_format`] says.
#[verifier::external_body]
fn detect_key_format(der: &[u8]) -> (format: Option<KeyFormat>)
    ensures
        format == key_format(der@),
{
    match PrivateKeyDer::try_from(der) {
        Ok(PrivateKeyDer::Pkcs1(_)) => Some(KeyFormat::Pkcs1),
        Ok(PrivateKeyDer::Sec1(_)) => Some(KeyFormat::Sec1),
        Ok(PrivateKeyDer::Pkcs8(_)) => Some(KeyFormat::Pkcs8),
        _ => None,
    }
}

/// Calls `RootCertStore::add_parsable_certificates` on an empty store and
/// returns the store with the two counts. Believed: every certificate is
/// either added or ignored, and the number added is [`trust_anchor_count`].
#[verifier::external_body]
fn collect_trust_anchors(certificates: &Vec<Vec<u8>>) -> (res: (RootCertStore, usize, usize))
    ensures
        res.1 == trust_anchor_count(ders(certificates@)),
        res.1 + res.2 == certificates.len(),
{
    let mut store = RootCertStore::empty();
    let (added, ignored) = store.add_parsable_certificates(
        certificates.iter().map(|der| CertificateDer::from(der.as_slice())),
    );
    (store, added, ignored)
}

/// Wraps the bytes of `key` in the `PrivateKeyDer` variant of its format.
#[verifier::external_body]
fn private_key_der(key: ServerKey) -> PrivateKeyDer<'static> {
    match key.format {
        KeyFormat::Pkcs1 => PrivateKeyDer::Pkcs1(key.der.into()),
        KeyFormat::Sec1 => PrivateKeyDer::Sec1(key.der.into()),
        KeyFormat::Pkcs8 => PrivateKeyDer::Pkcs8(key.der.into()),
    }
}

/// Builds a `rustls::ServerConfig` that asks no client for a certificate:
/// the `ring` provider, the default protocol versions, `with_no_client_auth`
/// and `with_single_cert`. An error of `rustls` comes back as its text.
/// Nothing is claimed about which of the two outcomes occurs.
#[verifier::external_body]
fn config_without_client_auth(chain: Vec<Vec<u8>>, key: PrivateKeyDer<'static>) -> Result<
    ServerConfig,
    String,
> {
    let provider = Arc::new(rustls::crypto::ring::default_provider());
    ServerConfig::builder_with_provider(provider)
        .with_safe_default_protocol_versions()
        .map_err(|e| e.to_string())?
        .with_no_client_auth()
        .with_single_cert(chain.into_iter().map(CertificateDer::from).collect(), key)
        .map_err(|e| e.to_string())
}

/// Builds a `rustls::ServerConfig` that requires a client certificate issued
/// under one of `roots`: a `WebPkiClientVerifier` over the `ring` provider,
/// then `with_client_cert_verifier` and `with_single_cert`. An error of
/// `rustls` comes back as its text. Nothing is claimed about which of the
/// two outcomes occurs.
#[verifier::external_body]
fn config_with_client_auth(
    chain: Vec<Vec<u8>>,
    key: PrivateKeyDer<'static>,
    roots: RootCertStore,
) -> Result<ServerConfig, String> {
    let provider = Arc::new(rustls::crypto::ring::default_provider());
    let verifier = WebPkiClientVerifier::builder_with_provider(Arc::new(roots), provider.clone())
        .build()
        .map_err(|e| e.to_string())?;
    ServerConfig::builder_with_provider(provider)
        .with_safe_default_protocol_versions()
        .map_err(|e| e.to_string())?
        .with_client_cert_verifier(verifier)
        .with_single_cert(chain.into_iter().map(CertificateDer::from).collect(), key)
        .map_err(|e| e.to_string())
}

proof fn lemma_readable_step(entries: Seq<Option<Seq<u8>>>, i: int)
    requires
        0 <= i < entries.len(),
    ensures
        readable_certificates(entries.take(i + 1)) == match entries[i] {
            Some(der) => readable_certificates(entries.take(i)).push(der),
            None => readable_certificates(entries.take(i)),
        },
{
    assert(entries.take(i + 1).drop_last() =~= entries.take(i));
}

proof fn lemma_keys_step(items: Seq<(PemKind, Seq<u8>)>, i: int)
    requires
        0 <= i < items.len(),
    ensures
        private_keys(items.take(i + 1)) == if items[i].0.is_key() {
            private_keys(items.take(i)).push(items[i].1)
        } else {
            private_keys(items.take(i))
        },
{
    assert(items.take(i + 1).drop_last() =~= items.take(i));
}

/// The certificates that were decoded, in the order of the file.
pub fn readable(entries: &Vec<Option<Vec<u8>>>) -> (found: Vec<Vec<u8>>)
    ensures
        ders(found@) == readable_certificates(entries_view(entries@)),
{
    let mut found: Vec<Vec<u8>> = Vec::new();
    let mut i: usize = 0;
    assert(ders(found@) =~= Seq::empty());
    while i < entries.len()
        invariant
            i <= entries.len(),
            ders(found@) == readable_certificates(entries_view(entries@).take(i as int)),
        decreases entries.len() - i,
    {
        let ghost before = ders(found@);
        proof {
            lemma_readable_step(entries_view(entries@), i as int);
        }
        match &entries[i] {
            Some(der) => {
                found.push(slice_to_vec(der.as_slice()));
                assert(ders(found@) =~= before.push(der@));
            },
            None => {},
        }
        i += 1;
    }
    assert(entries_view(entries@).take(entries.len() as int) =~= entries_view(entries@));
    found
}

/// The private keys among the items, in the order of the file.
pub fn keys_of(items: &Vec<PemItem>) -> (found: Vec<Vec<u8>>)
    ensures
        ders(found@) == private_keys(items_view(items@)),
{
    let mut found: Vec<Vec<u8>> = Vec::new();
    let mut i: usize = 0;
    assert(ders(found@) =~= Seq::empty());
    while i < items.len()
        invariant
            i <= items.len(),
            ders(found@) == private_keys(items_view(items@).take(i as int)),
        decreases items.len() - i,
    {
        let ghost before = ders(found@);
        proof {
            lemma_keys_step(items_view(items@), i as int);
        }
        let item = &items[i];
        let is_key = match item.kind {
            PemKind::Pkcs1Key => true,
            PemKind::Pkcs8Key => true,
            PemKind::Sec1Key => true,
            PemKind::Other => false,
            PemKind::Unreadable => false,
        };
        if is_key {
            found.push(slice_to_vec(item.der.as_slice()));
            assert(ders(found@) =~= before.push(item.der@));
        }
        i += 1;
    }
    assert(items_view(items@).take(items.len() as int) =~= items_view(items@));
    found
}

/// Chooses the server certificate among the entries of a certificate file:
/// the decoded ones, unless there are several.
pub fn single_certificate(entries: &Vec<Option<Vec<u8>>>) -> (res: Result<Vec<Vec<u8>>, TlsError>)
    ensures
        ders_result(res) == certificate_choice(entries_view(entries@)),
{
    let found = readable(entries);
    if found.len() > 1 {
        Err(TlsError::MultipleCertificates)
    } else {
        Ok(found)
    }
}

/// Chooses the private key among the sections of a key file: the only key
/// there is, provided its encoding is recognised.
pub fn single_key(items: &Vec<PemItem>) -> (res: Result<ServerKey, TlsError>)
    ensures
        key_result(res) == key_choice(items_view(items@)),
{
    let mut found = keys_of(items);
    if found.len() == 0 {
        return Err(TlsError::NoKey);
    }
    if found.len() > 1 {
        return Err(TlsError::MultipleKeys);
    }
    let ghost only = ders(found@)[0];
    let der = found.pop().unwrap();
    assert(der@ == only);
    match detect_key_format(der.as_slice()) {
        Some(format) => Ok(ServerKey { format, der }),
        None => Err(TlsError::InvalidKey),
    }
}

/// Decodes a certificate file and chooses the server certificate.
pub fn load_certificate(pem: &[u8]) -> (res: Result<Vec<Vec<u8>>, TlsError>)
    ensures
        ders_result(res) == certificate_choice(pem_certificates(pem@)),
{
    let entries = read_certificates(pem);
    single_certificate(&entries)
}

/// Decodes a key file and chooses the private key.
pub fn load_key(pem: &[u8]) -> (res: Result<ServerKey, TlsError>)
    ensures
        key_result(res) == key_choice(pem_items(pem@)),
{
    let items = read_items(pem);
    single_key(&items)
}

/// Decodes a client CA bundle: every certificate that can be decoded.
pub fn load_client_cas(pem: &[u8]) -> (cas: Vec<Vec<u8>>)
    ensures
        ders(cas@) == readable_certificates(pem_certificates(pem@)),
{
    let entries = read_certificates(pem);
    readable(&entries)
}

/// Chooses the TLS material from the content of the certificate file, the
/// key file and, for mutual TLS, the client CA bundle.
pub fn select_server_material(cert_pem: &[u8], key_pem: &[u8], client_ca_pem: Option<&[u8]>) -> (res:
    Result<ServerMaterial, TlsError>)
    ensures
        material_result(res) == material_choice(
            pem_certificates(cert_pem@),
            pem_items(key_pem@),
            match client_ca_pem {
                Some(pem) => Some(pem_certificates(pem@)),
                None => None,
            },
        ),
{
    let chain = match load_certificate(cert_pem) {
        Ok(chain) => chain,
        Err(e) => {
            return Err(e);
        },
    };
    let key = match load_key(key_pem) {
        Ok(key) => key,
        Err(e) => {
            return Err(e);
        },
    };
    let client_cas = match client_ca_pem {
        Some(pem) => Some(load_client_cas(pem)),
        None => None,
    };
    Ok(ServerMaterial { chain, key, client_cas })
}

/// The fault that keeps material from being handed to the TLS library, if
/// there is one. `anchors` is the number of trust anchors the client CA
/// bundle yields, where there is a bundle. A bundle without any trust anchor
/// is refused, and so is material without a certificate.
pub open spec fn material_fault(chain: Seq<Seq<u8>>, anchors: Option<nat>) -> Option<TlsError> {
    if anchors == Some(0nat) {
        Some(TlsError::NoClientTrustAnchors)
    } else if chain.len() == 0 {
        Some(TlsError::NoCertificate)
    } else {
        None
    }
}

/// The number of trust anchors among the certificates of a client CA bundle,
/// where there is a bundle.
pub open spec fn anchors_of(client_cas: Option<Seq<Seq<u8>>>) -> Option<nat> {
    match client_cas {
        Some(cas) => Some(trust_anchor_count(cas)),
        None => None,
    }
}

/// What the answer of the TLS library becomes: its context, or its
/// explanation as [`TlsError::Rejected`].
pub open spec fn library_answer(built: Result<ServerConfig, String>) -> Result<ServerConfig, TlsError> {
    match built {
        Ok(config) => Ok(config),
        Err(text) => Err(TlsError::Rejected(text)),
    }
}

/// What building a TLS context from `material` may return: the fault of the
/// material where it has one; else whatever the TLS library decides, a
/// context or [`TlsError::Rejected`].
pub open spec fn config_outcome(material: MaterialView, res: Result<ServerConfig, TlsError>) -> bool {
    match material_fault(material.chain, anchors_of(material.client_cas)) {
        Some(fault) => res == Err::<ServerConfig, TlsError>(fault),
        None => res is Ok || (res is Err && res->Err_0 is Rejected),
    }
}

/// Judges material before it is handed to the TLS library.
pub fn check_material(chain: &Vec<Vec<u8>>, anchors: Option<usize>) -> (fault: Option<TlsError>)
    ensures
        fault == material_fault(
            ders(chain@),
            match anchors {
                Some(count) => Some(count as nat),
                None => None,
            },
        ),
{
    match anchors {
        Some(count) => {
            if count == 0 {
                return Some(TlsError::NoClientTrustAnchors);
            }
        },
        None => {},
    }
    if chain.len() == 0 {
        Some(TlsError::NoCertificate)
    } else {
        None
    }
}

/// Turns the answer of the TLS library into the result of the build.
pub fn config_result(built: Result<ServerConfig, String>) -> (res: Result<ServerConfig, TlsError>)
    ensures
        res == library_answer(built),
{
    match built {
        Ok(config) => Ok(config),
        Err(text) => Err(TlsError::Rejected(text)),
    }
}

/// Builds the TLS context from checked material.
pub fn server_config(material: ServerMaterial) -> (res: Result<ServerConfig, TlsError>)
    ensures
        config_outcome(material@, res),
{
    let ServerMaterial { chain, key, client_cas } = material;
    let (roots, anchors) = match client_cas {
        None => (None, None),
        Some(cas) => {
            let (roots, added, _ignored) = collect_trust_anchors(&cas);
            (Some(roots), Some(added))
        },
    };
    match check_material(&chain, anchors) {
        Some(fault) => {
            return Err(fault);
        },
        None => {},
    }
    let key = private_key_der(key);
    let built = match roots {
        None => config_without_client_auth(chain, key),
        Some(roots) => config_with_client_auth(chain, key, roots),
    };
    config_result(built)
}

/// Builds the TLS context of the server from the content of its files:
/// chooses the material, then hands it to the TLS library.
pub fn build_tls_server_config(
    cert_pem: &[u8],
    key_pem: &[u8],
    client_ca_pem: Option<&[u8]>,
) -> (res: Result<ServerConfig, TlsError>)
    ensures
        match material_choice(
            pem_certificates(cert_pem@),
            pem_items(key_pem@),
            match client_ca_pem {
                Some(pem) => Some(pem_certificates(pem@)),
                None => None,
            },
        ) {
            Err(e) => res == Err::<ServerConfig, TlsError>(e),
            Ok(material) => config_outcome(material, res),
        },
{
    match select_server_material(cert_pem, key_pem, client_ca_pem) {
        Ok(material) => server_config(material),
        Err(e) => Err(e),
    }
}

impl TlsError {
    /// The text of the error.
    pub open spec fn spec_message(self) -> Seq<char> {
        match self {
            TlsError::MultipleCertificates => "Multiple certificates provided in cert file"@,
            TlsError::NoCertificate => "No certificate provided in cert file"@,
            TlsError::NoKey => "No key provided in key file"@,
            TlsError::MultipleKeys => "Multiple keys provided in key file"@,
            TlsError::InvalidKey => "Cannot parse server key: unknown or invalid key format"@,
            TlsError::NoClientTrustAnchors => "no root trust anchors were provided"@,
            TlsError::Rejected(text) => text@,
        }
    }

    /// The text of the error.
    pub fn message(&self) -> (text: String)
        ensures
            text@ == self.spec_message(),
    {
        match self {
            TlsError::MultipleCertificates => "Multiple certificates provided in cert file".to_string(),
            TlsError::NoCertificate => "No certificate provided in cert file".to_string(),
            TlsError::NoKey => "No key provided in key file".to_string(),
            TlsError::MultipleKeys => "Multiple keys provided in key file".to_string(),
            TlsError::InvalidKey => "Cannot parse server key: unknown or invalid key format".to_string(),
            TlsError::NoClientTrustAnchors => "no root trust anchors were provided".to_string(),
            TlsError::Rejected(text) => text.clone(),
        }
    }
}

} // verus!
