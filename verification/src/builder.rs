//! The client builder: a write-once-per-field configuration
//! accumulator that a terminal `build` freezes, together with a fixed
//! TLS profile and a fresh cookie store, into an immutable client.
//! Each setter consumes the builder and returns the updated one, so a
//! configuration can never be built twice.

use vstd::prelude::*;

use crate::time_jar::TimeJar;
use crate::trust::{assemble_trust_store, load_native_cert_ders, root_store_len, spec_valid_count,
    TrustStore};

verus! {

/// The fixed initial HTTP/2 stream flow-control window applied by
/// `build`; not configurable.
pub const H2_INITIAL_STREAM_WINDOW: u32 = 1024 * 256 * 24;

/// Log verbosity, from silence to wire-level tracing.
#[derive(Clone, Copy, Debug, PartialEq, Eq, Structural)]
pub enum LogLevel {
    Off,
    Error,
    Warn,
    Info,
    Debug,
    Trace,
}

/// The level selected by a numeric setting: 0 is silence, 5 is
/// wire-level tracing, and anything out of range falls back to the
/// default.
pub open spec fn spec_level_of(level: u64) -> LogLevel {
    if level == 0 {
        LogLevel::Off
    } else if level == 1 {
        LogLevel::Error
    } else if level == 2 {
        LogLevel::Warn
    } else if level == 3 {
        LogLevel::Info
    } else if level == 4 {
        LogLevel::Debug
    } else if level == 5 {
        LogLevel::Trace
    } else {
        LogLevel::Info
    }
}

/// What a failed `build`, or a refused setter value, reports.
#[derive(Clone, Copy, Debug, PartialEq, Eq, Structural)]
pub enum BuildError {
    /// The proxy URL does not parse.
    InvalidProxyUrl,
    /// The platform's trust store could not be read at all.
    TrustStoreUnavailable,
    /// Not one certificate of the platform's trust store was usable.
    NoValidTrustAnchors,
}

/// Whether `reqwest` accepts the string as a proxy URL; a pure
/// function of the string.
pub uninterp spec fn proxy_parses(url: Seq<char>) -> bool;

/// Relies on `reqwest::Proxy::all`: it parses the string as a proxy
/// URL for all traffic, and reports whether it is usable.
#[verifier::external_body]
fn proxy_url_is_valid(url: &str) -> (r: bool)
    ensures
        r == proxy_parses(url@),
{
    match reqwest::Proxy::all(url) {
        Ok(_) => true,
        Err(_) => false,
    }
}

/// The redirect policy derived from a configured limit.
#[derive(Clone, Copy, Debug, PartialEq, Eq, Structural)]
pub enum RedirectPolicy {
    /// Follow no redirect: a redirect status is the final response.
    NoFollow,
    /// Follow up to the given number of redirects.
    Limited(u64),
}

/// A limit of zero means no redirect is followed; any other limit is
/// followed up to that count.
pub open spec fn spec_redirect_policy(limit: u64) -> RedirectPolicy {
    if limit == 0 {
        RedirectPolicy::NoFollow
    } else {
        RedirectPolicy::Limited(limit)
    }
}

pub fn redirect_policy(limit: u64) -> (r: RedirectPolicy)
    ensures
        r == spec_redirect_policy(limit),
{
    if limit == 0 {
        RedirectPolicy::NoFollow
    } else {
        RedirectPolicy::Limited(limit)
    }
}

/// A mutable client configuration. Every field unset means the
/// engine's own default; a setter writes exactly one field and leaves
/// the rest untouched.
#[derive(Debug, Clone, PartialEq, Eq)]
pub struct Builder {
    /// Connection-establishment timeout, in seconds.
    pub connect_timeout_secs: Option<u64>,
    /// Whole-request timeout, in seconds; applies uniformly to every
    /// request of the built client.
    pub request_timeout_secs: Option<u64>,
    /// Refuse plain-HTTP URLs.
    pub https_only: bool,
    /// Redirect limit; 0 follows none.
    pub redirect_limit: Option<u64>,
    /// Adaptive HTTP/2 flow-control window.
    pub http2_adaptive_window: bool,
    /// Initial HTTP/2 stream window; set by `build` to the fixed
    /// constant.
    pub http2_initial_stream_window: Option<u32>,
    /// Proxy URL for all traffic, already validated.
    pub proxy: Option<String>,
    /// Strip sensitive headers when following a cross-origin redirect.
    pub strip_sensitive_headers: bool,
    /// Log verbosity.
    pub log_level: LogLevel,
    /// Connection-level wire logging; switched on alongside maximum
    /// verbosity.
    pub connection_verbose: bool,
}

impl Builder {
    /// An empty configuration: every engine option at its default, the
    /// log level at its default of `Info`.
    pub fn new() -> (r: Builder)
        ensures
            r == Builder::spec_default(),
    {
        Builder {
            connect_timeout_secs: None,
            request_timeout_secs: None,
            https_only: false,
            redirect_limit: None,
            http2_adaptive_window: false,
            http2_initial_stream_window: None,
            proxy: None,
            strip_sensitive_headers: false,
            log_level: LogLevel::Info,
            connection_verbose: false,
        }
    }

    pub open spec fn spec_default() -> Builder {
        Builder {
            connect_timeout_secs: None,
            request_timeout_secs: None,
            https_only: false,
            redirect_limit: None,
            http2_adaptive_window: false,
            http2_initial_stream_window: None,
            proxy: None,
            strip_sensitive_headers: false,
            log_level: LogLevel::Info,
            connection_verbose: false,
        }
    }

    pub fn connect_timeout(self, seconds: u64) -> (r: Builder)
        ensures
            r == (Builder { connect_timeout_secs: Some(seconds), ..self }),
    {
        Builder { connect_timeout_secs: Some(seconds), ..self }
    }

    pub fn request_timeout(self, seconds: u64) -> (r: Builder)
        ensures
            r == (Builder { request_timeout_secs: Some(seconds), ..self }),
    {
        Builder { request_timeout_secs: Some(seconds), ..self }
    }

    pub fn https_only(self, only: bool) -> (r: Builder)
        ensures
            r == (Builder { https_only: only, ..self }),
    {
        Builder { https_only: only, ..self }
    }

    pub fn redirect_limit(self, limit: u64) -> (r: Builder)
        ensures
            r == (Builder { redirect_limit: Some(limit), ..self }),
    {
        Builder { redirect_limit: Some(limit), ..self }
    }

    pub fn http2_adaptive_window(self, enabled: bool) -> (r: Builder)
        ensures
            r == (Builder { http2_adaptive_window: enabled, ..self }),
    {
        Builder { http2_adaptive_window: enabled, ..self }
    }

    pub fn strip_sensitive_headers(self, strip: bool) -> (r: Builder)
        ensures
            r == (Builder { strip_sensitive_headers: strip, ..self }),
    {
        Builder { strip_sensitive_headers: strip, ..self }
    }

    /// Validates the proxy URL and records it; a string the engine
    /// cannot parse as a proxy URL is refused and the configuration is
    /// not changed.
    pub fn proxy(self, url: String) -> (r: Result<Builder, BuildError>)
        ensures
            r is Ok <==> proxy_parses(url@),
            r is Ok ==> r->Ok_0 == (Builder { proxy: Some(url), ..self }),
            r is Err ==> r->Err_0 == BuildError::InvalidProxyUrl,
    {
        if proxy_url_is_valid(url.as_str()) {
            Ok(Builder { proxy: Some(url), ..self })
        } else {
            Err(BuildError::InvalidProxyUrl)
        }
    }

    /// Selects the log verbosity; the maximum level additionally
    /// switches connection-level wire logging on, intentionally
    /// coupled because wire logging is only meaningful at maximum
    /// verbosity. Wire logging, once on, stays on.
    pub fn log_level(self, level: u64) -> (r: Builder)
        ensures
            r == (Builder {
                log_level: spec_level_of(level),
                connection_verbose: self.connection_verbose || level == 5,
                ..self
            }),
    {
        let log_level = match level {
            0 => LogLevel::Off,
            1 => LogLevel::Error,
            2 => LogLevel::Warn,
            3 => LogLevel::Info,
            4 => LogLevel::Debug,
            5 => LogLevel::Trace,
            _ => LogLevel::Info,
        };
        let connection_verbose = self.connection_verbose || level == 5;
        Builder { log_level, connection_verbose, ..self }
    }

    /// The terminal operation: applies the fixed initial HTTP/2 stream
    /// window, builds the TLS profile and the trust store from the
    /// platform's certificates — tolerating individual parse failures
    /// — allocates a fresh cookie store, and freezes everything into a
    /// client. Fatal only when the platform's trust store cannot be
    /// read, or not one of its certificates is usable.
    pub fn build(self) -> (r: Result<Client, BuildError>)
        ensures
            r is Ok ==> ({
                let c = r->Ok_0;
                &&& c.config == (Builder {
                    http2_initial_stream_window: Some(H2_INITIAL_STREAM_WINDOW),
                    ..self
                })
                &&& spec_is_standard_profile(c.profile)
                &&& c.trust.valid >= 1
                &&& root_store_len(c.trust.roots) == c.trust.valid
                &&& c.jar@ == Seq::<crate::time_jar::CookieEventView>::empty()
                &&& c.jar.well_formed()
            }),
            r is Err ==> (r->Err_0 == BuildError::TrustStoreUnavailable || r->Err_0
                == BuildError::NoValidTrustAnchors),
    {
        match load_native_cert_ders() {
            None => Err(BuildError::TrustStoreUnavailable),
            Some(certs) => self.build_with_certs(&certs),
        }
    }

    /// As `build`, with the candidate trust-store certificates given
    /// by the caller: succeeds exactly when at least one of them
    /// parses as a trust anchor.
    pub fn build_with_certs(self, certs: &Vec<Vec<u8>>) -> (r: Result<Client, BuildError>)
        ensures
            r is Ok <==> spec_valid_count(certs.deep_view()) >= 1,
            r is Ok ==> ({
                let c = r->Ok_0;
                &&& c.config == (Builder {
                    http2_initial_stream_window: Some(H2_INITIAL_STREAM_WINDOW),
                    ..self
                })
                &&& spec_is_standard_profile(c.profile)
                &&& c.trust.valid == spec_valid_count(certs.deep_view())
                &&& c.trust.valid + c.trust.invalid == certs@.len()
                &&& root_store_len(c.trust.roots) == c.trust.valid
                &&& c.jar@ == Seq::<crate::time_jar::CookieEventView>::empty()
                &&& c.jar.well_formed()
            }),
            r is Err ==> r->Err_0 == BuildError::NoValidTrustAnchors,
    {
        let trust = assemble_trust_store(certs);
        if trust.valid == 0 {
            return Err(BuildError::NoValidTrustAnchors);
        }
        let config = Builder { http2_initial_stream_window: Some(H2_INITIAL_STREAM_WINDOW), ..self };
        Ok(Client { config, profile: TlsProfile::standard(), trust, jar: TimeJar::new() })
    }
}

/// An immutable, reusable client: the frozen configuration, the TLS
/// profile presented to every peer, the assembled trust store, and
/// the cookie store shared by every request issued through it.
pub struct Client {
    pub config: Builder,
    pub profile: TlsProfile,
    pub trust: TrustStore,
    pub jar: TimeJar,
}

/// The cipher suites a client offers, by name.
#[derive(Clone, Copy, Debug, PartialEq, Eq, Structural)]
pub enum CipherSuiteId {
    Tls13Aes128GcmSha256,
    Tls13Aes256GcmSha384,
    Tls13Chacha20Poly1305Sha256,
    EcdheEcdsaAes128GcmSha256,
    EcdheRsaAes128GcmSha256,
    EcdheEcdsaAes256GcmSha384,
    EcdheRsaAes256GcmSha384,
    EcdheEcdsaChacha20Poly1305Sha256,
    EcdheRsaChacha20Poly1305Sha256,
}

/// The key-exchange groups a client offers, by name.
#[derive(Clone, Copy, Debug, PartialEq, Eq, Structural)]
pub enum KxGroupId {
    X25519,
    Secp256r1,
    Secp384r1,
}

/// The protocol versions a client offers.
#[derive(Clone, Copy, Debug, PartialEq, Eq, Structural)]
pub enum TlsVersionId {
    Tls12,
    Tls13,
}

/// The deterministic TLS handshake profile every client presents:
/// ordered cipher suites, key-exchange groups, protocol versions, and
/// the ALPN preference list.
pub struct TlsProfile {
    pub cipher_suites: Vec<CipherSuiteId>,
    pub kx_groups: Vec<KxGroupId>,
    pub versions: Vec<TlsVersionId>,
    pub alpn: Vec<String>,
}

/// The fixed cipher-suite preference order.
pub open spec fn spec_standard_cipher_suites() -> Seq<CipherSuiteId> {
    seq![
        CipherSuiteId::Tls13Aes128GcmSha256,
        CipherSuiteId::Tls13Aes256GcmSha384,
        CipherSuiteId::Tls13Chacha20Poly1305Sha256,
        CipherSuiteId::EcdheEcdsaAes128GcmSha256,
        CipherSuiteId::EcdheRsaAes128GcmSha256,
        CipherSuiteId::EcdheEcdsaAes256GcmSha384,
        CipherSuiteId::EcdheRsaAes256GcmSha384,
        CipherSuiteId::EcdheEcdsaChacha20Poly1305Sha256,
        CipherSuiteId::EcdheRsaChacha20Poly1305Sha256,
    ]
}

/// The fixed key-exchange group preference order.
pub open spec fn spec_standard_kx_groups() -> Seq<KxGroupId> {
    seq![KxGroupId::X25519, KxGroupId::Secp256r1, KxGroupId::Secp384r1]
}

/// The fixed protocol-version list.
pub open spec fn spec_standard_versions() -> Seq<TlsVersionId> {
    seq![TlsVersionId::Tls12, TlsVersionId::Tls13]
}

/// The fixed ALPN preference: HTTP/2, and HTTP/1.1 after it.
pub open spec fn spec_standard_alpn() -> Seq<Seq<char>> {
    seq!["h2"@, "http/1.1"@]
}

/// Whether a profile is the one fixed profile every client presents.
pub open spec fn spec_is_standard_profile(p: TlsProfile) -> bool {
    &&& p.cipher_suites@ == spec_standard_cipher_suites()
    &&& p.kx_groups@ == spec_standard_kx_groups()
    &&& p.versions@ == spec_standard_versions()
    &&& p.alpn.deep_view() == spec_standard_alpn()
}

impl TlsProfile {
    /// The one profile every client presents; built once per client at
    /// `build` time and immutable thereafter.
    pub fn standard() -> (r: TlsProfile)
        ensures
            spec_is_standard_profile(r),
    {
        let mut cipher_suites: Vec<CipherSuiteId> = Vec::new();
        cipher_suites.push(CipherSuiteId::Tls13Aes128GcmSha256);
        cipher_suites.push(CipherSuiteId::Tls13Aes256GcmSha384);
        cipher_suites.push(CipherSuiteId::Tls13Chacha20Poly1305Sha256);
        cipher_suites.push(CipherSuiteId::EcdheEcdsaAes128GcmSha256);
        cipher_suites.push(CipherSuiteId::EcdheRsaAes128GcmSha256);
        cipher_suites.push(CipherSuiteId::EcdheEcdsaAes256GcmSha384);
        cipher_suites.push(CipherSuiteId::EcdheRsaAes256GcmSha384);
        cipher_suites.push(CipherSuiteId::EcdheEcdsaChacha20Poly1305Sha256);
        cipher_suites.push(CipherSuiteId::EcdheRsaChacha20Poly1305Sha256);

        let mut kx_groups: Vec<KxGroupId> = Vec::new();
        kx_groups.push(KxGroupId::X25519);
        kx_groups.push(KxGroupId::Secp256r1);
        kx_groups.push(KxGroupId::Secp384r1);

        let mut versions: Vec<TlsVersionId> = Vec::new();
        versions.push(TlsVersionId::Tls12);
        versions.push(TlsVersionId::Tls13);

        let mut alpn: Vec<String> = Vec::new();
        alpn.push("h2".to_owned());
        alpn.push("http/1.1".to_owned());

        proof {
            assert(cipher_suites@ =~= spec_standard_cipher_suites());
            assert(kx_groups@ =~= spec_standard_kx_groups());
            assert(versions@ =~= spec_standard_versions());
            assert(alpn.deep_view() =~= spec_standard_alpn());
        }
        TlsProfile { cipher_suites, kx_groups, versions, alpn }
    }
}

} // verus!
