//! The staged client-configuration builder.
//!
//! A configuration is reachable only through the sequence
//! `WantsVerifier -> WantsClientCert -> ClientConfig`: each stage is a
//! distinct type holding only the fields legal at that stage, so calling a
//! later-stage operation early is a type error, never a runtime one. Only
//! `with_client_auth_cert` can fail, and only because of malformed or
//! unsupported key bytes.

use vstd::prelude::*;

use core::marker::PhantomData;

use crate::enums::SignatureScheme;
use crate::error::Error;
use crate::sign::{
    any_supported_type, ed25519_parses, parsed_from, rsa_parses, PrivateKeyDer, SigningKey,
};
use crate::tls13::SupportedCipherSuite;

verus! {

/// A named key-exchange group.
#[derive(Clone, Copy, Debug, PartialEq, Eq, Structural)]
pub enum KxGroup {
    X25519,
    Secp256r1,
    Secp384r1,
}

/// The cryptographic backend providing primitive implementations.
#[derive(Clone, Copy, Debug, PartialEq, Eq, Structural)]
pub enum CryptoProvider {
    Ring,
}

/// Which protocol versions a configuration enables.
#[derive(Clone, Copy, Debug, PartialEq, Eq, Structural)]
pub struct EnabledVersions {
    pub tls12: bool,
    pub tls13: bool,
}

/// A store of trust anchors: DER-encoded root certificates.
#[derive(Clone, Debug)]
pub struct RootCertStore {
    pub roots: Vec<Vec<u8>>,
}

/// A server-certificate verifier capability. The default construction
/// path binds the library's verifier to a set of trust anchors; the
/// dangerous path installs an opaque caller-supplied capability instead.
/// Verification behaviour itself lives outside this core.
#[derive(Clone, Debug)]
pub enum ServerCertVerifier {
    /// The library's default verifier over the given trust anchors.
    WebPki { roots: RootCertStore },
    /// An opaque caller-supplied verifier capability.
    Custom { id: usize },
}

/// A certificate chain paired with the loaded key that proves possession
/// of it.
pub struct CertifiedKey {
    /// DER-encoded certificates, end-entity first.
    pub cert_chain: Vec<Vec<u8>>,
    /// The loaded private key.
    pub key: SigningKey,
}

/// A client-certificate resolver capability: asked during a handshake
/// whether to present a client certificate.
pub enum ResolvesClientCert {
    /// Unconditionally declines to present a certificate.
    Fail,
    /// Unconditionally offers the same certified key.
    Always(CertifiedKey),
}

impl ResolvesClientCert {
    /// What `resolve` answers: `Fail` declines every request, `Always`
    /// offers its certified key whatever was requested.
    pub open spec fn resolve_spec(self, offered: Seq<SignatureScheme>) -> Option<CertifiedKey> {
        match self {
            ResolvesClientCert::Fail => None,
            ResolvesClientCert::Always(ck) => Some(ck),
        }
    }

    /// Answers a handshake-time certificate request, given the schemes the
    /// server offered.
    pub fn resolve(&self, offered: &[SignatureScheme]) -> (r: Option<&CertifiedKey>)
        ensures
            match r {
                Some(ck) => self.resolve_spec(offered@) == Some(*ck),
                None => self.resolve_spec(offered@) is None,
            },
    {
        match self {
            ResolvesClientCert::Fail => None,
            ResolvesClientCert::Always(ck) => Some(ck),
        }
    }

    /// Whether any certificate is available at all.
    pub fn has_certs(&self) -> (r: bool)
        ensures
            r == !(self is Fail),
    {
        match self {
            ResolvesClientCert::Fail => false,
            ResolvesClientCert::Always(_) => true,
        }
    }
}

/// The declining resolver answers every certificate request, under every
/// offered-scheme list, with the same deterministic refusal: no hidden
/// state can make a second request come out differently.
pub proof fn lemma_fail_resolver_always_declines(
    offered1: Seq<SignatureScheme>,
    offered2: Seq<SignatureScheme>,
)
    ensures
        ResolvesClientCert::Fail.resolve_spec(offered1) is None,
        ResolvesClientCert::Fail.resolve_spec(offered1) == ResolvesClientCert::Fail.resolve_spec(
            offered2,
        ),
{
}

/// The session-resumption policy of a client configuration.
#[derive(Clone, Copy, Debug, PartialEq, Eq, Structural)]
pub enum Resumption {
    /// Remember at most `num` sessions in memory.
    InMemorySessions { num: usize },
    /// Do not resume sessions.
    Disabled,
}

impl Default for Resumption {
    /// The default policy remembers 256 sessions in memory.
    fn default() -> (r: Self)
        ensures
            r == (Resumption::InMemorySessions { num: 256 }),
    {
        Resumption::InMemorySessions { num: 256 }
    }
}

/// A key-log sink; only the no-op sink exists in this core.
#[derive(Clone, Copy, Debug, PartialEq, Eq, Structural)]
pub enum KeyLog {
    NoKeyLog,
}

/// A config builder state where the caller must supply how to verify
/// server certificates.
pub struct WantsVerifier {
    pub cipher_suites: Vec<SupportedCipherSuite>,
    pub kx_groups: Vec<KxGroup>,
    pub provider: CryptoProvider,
    pub versions: EnabledVersions,
}

/// A config builder state where the caller must supply whether and how to
/// present a client certificate.
pub struct WantsClientCert {
    pub cipher_suites: Vec<SupportedCipherSuite>,
    pub kx_groups: Vec<KxGroup>,
    pub provider: CryptoProvider,
    pub versions: EnabledVersions,
    pub verifier: ServerCertVerifier,
}

/// A staged configuration builder: `Side` is the configuration being
/// built, `State` the current stage.
pub struct ConfigBuilder<Side, State> {
    pub state: State,
    pub side: PhantomData<Side>,
}

/// A complete, immutable client configuration. Created exactly once per
/// builder run; read-only thereafter.
pub struct ClientConfig {
    pub cipher_suites: Vec<SupportedCipherSuite>,
    pub kx_groups: Vec<KxGroup>,
    pub provider: CryptoProvider,
    pub alpn_protocols: Vec<Vec<u8>>,
    pub resumption: Resumption,
    pub max_fragment_size: Option<usize>,
    pub client_auth_cert_resolver: ResolvesClientCert,
    pub versions: EnabledVersions,
    pub enable_sni: bool,
    pub verifier: ServerCertVerifier,
    pub key_log: KeyLog,
    pub enable_secret_extraction: bool,
    pub enable_early_data: bool,
}

impl ConfigBuilder<ClientConfig, WantsVerifier> {
    /// Starts building a client configuration from the accumulated suites,
    /// key-exchange groups, provider and enabled versions.
    pub fn new(
        cipher_suites: Vec<SupportedCipherSuite>,
        kx_groups: Vec<KxGroup>,
        provider: CryptoProvider,
        versions: EnabledVersions,
    ) -> (r: Self)
        ensures
            r.state.cipher_suites == cipher_suites,
            r.state.kx_groups == kx_groups,
            r.state.provider == provider,
            r.state.versions == versions,
    {
        ConfigBuilder {
            state: WantsVerifier { cipher_suites, kx_groups, provider, versions },
            side: PhantomData,
        }
    }

    /// Chooses to verify server certificates against the given trust
    /// anchors with the library's default verifier; advances to the
    /// client-certificate stage.
    pub fn with_root_certificates(self, root_store: RootCertStore) -> (r: ConfigBuilder<
        ClientConfig,
        WantsClientCert,
    >)
        ensures
            r.state.cipher_suites == self.state.cipher_suites,
            r.state.kx_groups == self.state.kx_groups,
            r.state.provider == self.state.provider,
            r.state.versions == self.state.versions,
            r.state.verifier == (ServerCertVerifier::WebPki { roots: root_store }),
    {
        ConfigBuilder {
            state: WantsClientCert {
                cipher_suites: self.state.cipher_suites,
                kx_groups: self.state.kx_groups,
                provider: self.state.provider,
                versions: self.state.versions,
                verifier: ServerCertVerifier::WebPki { roots: root_store },
            },
            side: PhantomData,
        }
    }

    /// Accesses configuration options whose use is dangerous and requires
    /// extra care.
    pub fn dangerous(self) -> (r: DangerousClientConfigBuilder)
        ensures
            r.cfg == self,
    {
        DangerousClientConfigBuilder { cfg: self }
    }
}

/// Accessor for dangerous configuration options.
pub struct DangerousClientConfigBuilder {
    /// The underlying builder.
    pub cfg: ConfigBuilder<ClientConfig, WantsVerifier>,
}

impl DangerousClientConfigBuilder {
    /// Installs a caller-supplied certificate verifier in place of the
    /// default construction path; still advances through the
    /// client-certificate stage like every other path.
    pub fn with_custom_certificate_verifier(self, verifier: ServerCertVerifier) -> (r:
        ConfigBuilder<ClientConfig, WantsClientCert>)
        ensures
            r.state.cipher_suites == self.cfg.state.cipher_suites,
            r.state.kx_groups == self.cfg.state.kx_groups,
            r.state.provider == self.cfg.state.provider,
            r.state.versions == self.cfg.state.versions,
            r.state.verifier == verifier,
    {
        ConfigBuilder {
            state: WantsClientCert {
                cipher_suites: self.cfg.state.cipher_suites,
                kx_groups: self.cfg.state.kx_groups,
                provider: self.cfg.state.provider,
                versions: self.cfg.state.versions,
                verifier,
            },
            side: PhantomData,
        }
    }
}

impl ConfigBuilder<ClientConfig, WantsClientCert> {
    /// Whether `cfg` is the finished configuration this stage produces
    /// with the given resolver: stage fields carried over, every other
    /// policy field at its fixed default.
    pub open spec fn finishes_with(
        self,
        cfg: ClientConfig,
        resolver: ResolvesClientCert,
    ) -> bool {
        &&& cfg.cipher_suites == self.state.cipher_suites
        &&& cfg.kx_groups == self.state.kx_groups
        &&& cfg.provider == self.state.provider
        &&& cfg.versions == self.state.versions
        &&& cfg.verifier == self.state.verifier
        &&& cfg.client_auth_cert_resolver == resolver
        &&& cfg.alpn_protocols@ == Seq::<Vec<u8>>::empty()
        &&& cfg.resumption == (Resumption::InMemorySessions { num: 256 })
        &&& cfg.max_fragment_size is None
        &&& cfg.enable_sni == true
        &&& cfg.key_log == KeyLog::NoKeyLog
        &&& cfg.enable_secret_extraction == false
        &&& cfg.enable_early_data == false
    }

    /// Sets a single certificate chain and matching private key for client
    /// authentication. Fails, leaving nothing configured, exactly when no
    /// supported (encoding, algorithm) combination matches `key_der`; on
    /// success the resolver always offers `cert_chain` with the loaded key.
    pub fn with_client_auth_cert(
        self,
        cert_chain: Vec<Vec<u8>>,
        key_der: PrivateKeyDer,
    ) -> (r: Result<ClientConfig, Error>)
        ensures
            rsa_parses(key_der) ==> r is Ok,
            match r {
                Ok(cfg) => cfg.client_auth_cert_resolver matches ResolvesClientCert::Always(ck)
                    && ck.cert_chain == cert_chain && ck.key.wf() && parsed_from(ck.key, key_der)
                    && self.finishes_with(cfg, ResolvesClientCert::Always(ck)),
                Err(e) => e == Error::KeyParse && !rsa_parses(key_der) && !ed25519_parses(
                    key_der,
                ),
            },
    {
        match any_supported_type(&key_der) {
            Ok(key) => {
                let certified = CertifiedKey { cert_chain, key };
                let cfg = self.with_client_cert_resolver(ResolvesClientCert::Always(certified));
                Ok(cfg)
            },
            Err(_) => Err(Error::KeyParse),
        }
    }

    /// Sets a single certificate chain and matching private key for client
    /// authentication. Superseded by `with_client_auth_cert`, which it
    /// forwards to.
    pub fn with_single_cert(
        self,
        cert_chain: Vec<Vec<u8>>,
        key_der: PrivateKeyDer,
    ) -> (r: Result<ClientConfig, Error>)
        ensures
            rsa_parses(key_der) ==> r is Ok,
            match r {
                Ok(cfg) => cfg.client_auth_cert_resolver matches ResolvesClientCert::Always(ck)
                    && ck.cert_chain == cert_chain && ck.key.wf() && parsed_from(ck.key, key_der)
                    && self.finishes_with(cfg, ResolvesClientCert::Always(ck)),
                Err(e) => e == Error::KeyParse && !rsa_parses(key_der) && !ed25519_parses(
                    key_der,
                ),
            },
    {
        self.with_client_auth_cert(cert_chain, key_der)
    }

    /// Does not support client authentication: the resolver declines every
    /// certificate request at handshake time; this is never a
    /// configuration-time error.
    pub fn with_no_client_auth(self) -> (r: ClientConfig)
        ensures
            self.finishes_with(r, ResolvesClientCert::Fail),
    {
        self.with_client_cert_resolver(ResolvesClientCert::Fail)
    }

    /// Installs the given client-certificate resolver and finalizes the
    /// builder into an immutable configuration, applying fixed defaults
    /// for every unspecified policy flag.
    pub fn with_client_cert_resolver(self, client_auth_cert_resolver: ResolvesClientCert) -> (r:
        ClientConfig)
        ensures
            self.finishes_with(r, client_auth_cert_resolver),
    {
        let cfg = ClientConfig {
            cipher_suites: self.state.cipher_suites,
            kx_groups: self.state.kx_groups,
            provider: self.state.provider,
            alpn_protocols: Vec::new(),
            resumption: Resumption::default(),
            max_fragment_size: None,
            client_auth_cert_resolver,
            versions: self.state.versions,
            enable_sni: true,
            verifier: self.state.verifier,
            key_log: KeyLog::NoKeyLog,
            enable_secret_extraction: false,
            enable_early_data: false,
        };
        proof {
            assert(cfg.alpn_protocols@ =~= Seq::<Vec<u8>>::empty());
        }
        cfg
    }
}

} // verus!
