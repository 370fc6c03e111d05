use vstd::prelude::*;

use rustls::crypto::aws_lc_rs::sign::any_supported_type;
use rustls::pki_types::pem::PemObject;
use rustls::pki_types::{CertificateDer, PrivateKeyDer};

verus! {

/// Which DER container a private key was parsed from.
#[derive(Clone, Copy, Debug, PartialEq, Eq)]
pub enum KeyKind {
    Pkcs1,
    Sec1,
    Pkcs8,
}

/// A private signing key held as plain DER bytes, tagged with its container kind.
#[derive(Clone, Debug, PartialEq, Eq)]
pub struct PrivateKeyData {
    pub kind: KeyKind,
    pub der: Vec<u8>,
}

pub struct KeyView {
    pub kind: KeyKind,
    pub der: Seq<u8>,
}

impl View for PrivateKeyData {
    type V = KeyView;

    open spec fn view(&self) -> KeyView {
        KeyView { kind: self.kind, der: self.der@ }
    }
}

/// A server identity: the certificate chain as DER blobs, leaf first, and the
/// private key authorized to sign for it.
#[derive(Clone, Debug, PartialEq, Eq)]
pub struct Identity {
    pub chain: Vec<Vec<u8>>,
    pub key: PrivateKeyData,
}

pub struct IdentityView {
    pub chain: Seq<Seq<u8>>,
    pub key: KeyView,
}

impl View for Identity {
    type V = IdentityView;

    open spec fn view(&self) -> IdentityView {
        IdentityView { chain: self.chain.deep_view(), key: self.key@ }
    }
}

/// Why an insertion was rejected; the table is left unchanged either way.
#[derive(Clone, Copy, Debug, PartialEq, Eq, Structural)]
pub enum InsertError {
    /// The private key is malformed, or its algorithm is unsupported by the
    /// signing engine.
    KeyParse,
    /// Some entry of the certificate chain is malformed.
    CertParse,
}

#[verifier::external_type_specification]
#[verifier::external_body]
#[verifier::reject_recursive_types(K)]
#[verifier::reject_recursive_types(V)]
#[verifier::reject_recursive_types(S)]
pub struct ExDashMap<K, V, S>(dashmap::DashMap<K, V, S>);

/// What the concurrent table holds: each registered hostname mapped to the
/// identity most recently published for it.
pub uninterp spec fn table_entries(m: dashmap::DashMap<String, Identity>) -> Map<
    Seq<char>,
    IdentityView,
>;

/// Concurrent hostname-to-identity table consulted during every TLS handshake.
pub struct DynamicResolver {
    pub certs: dashmap::DashMap<String, Identity>,
}

impl View for DynamicResolver {
    type V = Map<Seq<char>, IdentityView>;

    open spec fn view(&self) -> Map<Seq<char>, IdentityView> {
        table_entries(self.certs)
    }
}

/// The hostname a handshake presented, as the resolver sees it.
pub open spec fn sni_view(server_name: Option<&String>) -> Option<Seq<char>> {
    match server_name {
        Some(h) => Some(h@),
        None => None,
    }
}

/// What resolution returns: nothing when no hostname was presented, nothing
/// when the hostname is unregistered, and otherwise exactly the identity the
/// table holds for it.
pub open spec fn resolve_spec(
    entries: Map<Seq<char>, IdentityView>,
    sni: Option<Seq<char>>,
) -> Option<IdentityView> {
    match sni {
        Some(h) => if entries.dom().contains(h) {
            Some(entries[h])
        } else {
            None
        },
        None => None,
    }
}

/// Name for what a parse of private-key PEM text yields; the result is a
/// function of the text alone.
pub uninterp spec fn key_from_pem(pem: Seq<u8>) -> Option<KeyView>;

/// Name for what a parse of certificate-chain PEM text yields; the result is
/// a function of the text alone.
pub uninterp spec fn certs_from_pem(pem: Seq<u8>) -> Option<Seq<Seq<u8>>>;

/// Name for the signing engine's verdict on a key: whether it parses as one
/// of the algorithms the engine signs with, a function of the key alone.
pub uninterp spec fn engine_accepts(k: KeyView) -> bool;

/// Relies on rustls::pki_types::PrivateKeyDer::from_pem_slice: parses the
/// first private key found in the PEM text, deterministically in the text.
#[verifier::external_body]
fn parse_private_key(pem: &Vec<u8>) -> (r: Option<PrivateKeyData>)
    ensures
        match r {
            Some(k) => key_from_pem(pem@) == Some(k@),
            None => key_from_pem(pem@) is None,
        },
{
    match PrivateKeyDer::from_pem_slice(pem.as_slice()) {
        Ok(k) => {
            let kind = match &k {
                PrivateKeyDer::Pkcs1(_) => KeyKind::Pkcs1,
                PrivateKeyDer::Sec1(_) => KeyKind::Sec1,
                _ => KeyKind::Pkcs8,
            };
            Some(PrivateKeyData { kind, der: k.secret_der().to_vec() })
        },
        Err(_) => None,
    }
}

/// Relies on rustls::pki_types::CertificateDer::pem_slice_iter: yields every
/// certificate of the PEM text in order, or an error entry where one is
/// malformed; deterministic in the text.
#[verifier::external_body]
fn parse_cert_chain(pem: &Vec<u8>) -> (r: Option<Vec<Vec<u8>>>)
    ensures
        match r {
            Some(c) => certs_from_pem(pem@) == Some(c.deep_view()),
            None => certs_from_pem(pem@) is None,
        },
{
    let mut out: Vec<Vec<u8>> = Vec::new();
    for item in CertificateDer::pem_slice_iter(pem.as_slice()) {
        match item {
            Ok(c) => out.push(c.as_ref().to_vec()),
            Err(_) => return None,
        }
    }
    Some(out)
}

/// Relies on rustls::crypto::aws_lc_rs::sign::any_supported_type: whether the
/// key parses as RSA, ECDSA, EdDSA or PQDSA signing material; the verdict is
/// a function of the key bytes alone.
#[verifier::external_body]
fn key_supported(key: &PrivateKeyData) -> (r: bool)
    ensures
        r == engine_accepts(key@),
{
    let der = key.der.clone();
    let parsed = match key.kind {
        KeyKind::Pkcs1 => PrivateKeyDer::Pkcs1(der.into()),
        KeyKind::Sec1 => PrivateKeyDer::Sec1(der.into()),
        KeyKind::Pkcs8 => PrivateKeyDer::Pkcs8(der.into()),
    };
    any_supported_type(&parsed).is_ok()
}

impl DynamicResolver {
    /// Relies on dashmap::DashMap::new: a fresh table holds nothing.
    #[verifier::external_body]
    pub fn new() -> (r: DynamicResolver)
        ensures
            forall|h: Seq<char>| !table_entries(r.certs).dom().contains(h),
    {
        DynamicResolver { certs: dashmap::DashMap::new() }
    }

    /// Relies on dashmap::DashMap::get: returns a clone of the value stored
    /// under `host`, or nothing when the key is absent; no other key is read.
    #[verifier::external_body]
    fn lookup(&self, host: &String) -> (r: Option<Identity>)
        ensures
            match r {
                Some(id) => table_entries(self.certs).dom().contains(host@) && id@
                    == table_entries(self.certs)[host@],
                None => !table_entries(self.certs).dom().contains(host@),
            },
    {
        self.certs.get(host).map(|entry| entry.value().clone())
    }

    /// Relies on dashmap::DashMap::insert: maps `host` to `id`, replacing any
    /// previous value for that key and leaving every other key unchanged.
    #[verifier::external_body]
    pub(crate) fn publish(&mut self, host: String, id: Identity)
        ensures
            table_entries(final(self).certs) == table_entries(old(self).certs).insert(host@, id@),
    {
        self.certs.insert(host, id);
    }

    /// Hostname-to-identity lookup the TLS engine invokes once per handshake.
    pub fn resolve(&self, server_name: Option<&String>) -> (r: Option<Identity>)
        ensures
            match r {
                Some(id) => resolve_spec(self@, sni_view(server_name)) == Some(id@),
                None => resolve_spec(self@, sni_view(server_name)) is None,
            },
    {
        match server_name {
            Some(h) => self.lookup(h),
            None => None,
        }
    }

    /// Publishes a fully parsed identity for `host`. `supported` is the
    /// signing engine's verdict on the key: a rejected key is reported like a
    /// malformed one and the table is left unchanged, an accepted one is
    /// published at once.
    pub fn install(
        &mut self,
        host: String,
        key: PrivateKeyData,
        supported: bool,
        chain: Vec<Vec<u8>>,
    ) -> (r: Result<(), InsertError>)
        ensures
            supported ==> r == Ok::<(), InsertError>(()) && final(self)@ == old(self)@.insert(
                host@,
                IdentityView { chain: chain.deep_view(), key: key@ },
            ),
            !supported ==> r == Err::<(), InsertError>(InsertError::KeyParse) && final(self)@
                == old(self)@,
    {
        if supported {
            self.publish(host, Identity { chain, key });
            Ok(())
        } else {
            Err(InsertError::KeyParse)
        }
    }

    /// Parses key and chain material and publishes the identity for `host`.
    /// The table changes only when the whole parse succeeds; a key the signing
    /// engine does not support is rejected like a malformed one.
    pub fn insert(&mut self, host: String, private: Vec<u8>, fullchain: Vec<u8>) -> (r: Result<
        (),
        InsertError,
    >)
        ensures
            key_from_pem(private@) is None ==> r == Err::<(), InsertError>(InsertError::KeyParse),
            key_from_pem(private@) is Some && certs_from_pem(fullchain@) is None ==> r == Err::<
                (),
                InsertError,
            >(InsertError::CertParse),
            (key_from_pem(private@) matches Some(k) && certs_from_pem(fullchain@) is Some
                && !engine_accepts(k)) ==> r == Err::<(), InsertError>(InsertError::KeyParse),
            (key_from_pem(private@) matches Some(k) && certs_from_pem(fullchain@) is Some
                && engine_accepts(k)) ==> r is Ok,
            r is Err ==> final(self)@ == old(self)@,
            match (r, key_from_pem(private@), certs_from_pem(fullchain@)) {
                (Ok(()), Some(k), Some(c)) => final(self)@ == old(self)@.insert(
                    host@,
                    IdentityView { chain: c, key: k },
                ),
                _ => true,
            },
    {
        let key = match parse_private_key(&private) {
            Some(k) => k,
            None => {
                return Err(InsertError::KeyParse);
            },
        };
        let chain = match parse_cert_chain(&fullchain) {
            Some(c) => c,
            None => {
                return Err(InsertError::CertParse);
            },
        };
        let supported = key_supported(&key);
        self.install(host, key, supported, chain)
    }
}

/// Law: publishing an identity for a hostname makes resolution for that
/// hostname yield exactly that identity, however the table looked before.
pub proof fn lemma_resolve_after_publish(
    entries: Map<Seq<char>, IdentityView>,
    host: Seq<char>,
    id: IdentityView,
)
    ensures
        resolve_spec(entries.insert(host, id), Some(host)) == Some(id),
{
}

/// Law: a hostname that was never published resolves to nothing, and so does
/// a handshake that presents no hostname at all.
pub proof fn lemma_resolve_unregistered(entries: Map<Seq<char>, IdentityView>, host: Seq<char>)
    ensures
        !entries.dom().contains(host) ==> resolve_spec(entries, Some(host)) is None,
        resolve_spec(entries, None) is None,
{
}

/// Law: publishing under one hostname leaves resolution for every other
/// hostname exactly as it was.
pub proof fn lemma_publish_independent(
    entries: Map<Seq<char>, IdentityView>,
    published: Seq<char>,
    id: IdentityView,
    other: Seq<char>,
)
    requires
        published != other,
    ensures
        resolve_spec(entries.insert(published, id), Some(other)) == resolve_spec(
            entries,
            Some(other),
        ),
{
}

} // verus!
