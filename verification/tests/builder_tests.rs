use rust_fetch::builder::{
    redirect_policy, BuildError, Builder, CipherSuiteId, KxGroupId, LogLevel, RedirectPolicy,
    TlsProfile, TlsVersionId, H2_INITIAL_STREAM_WINDOW,
};

#[test]
fn new_builder_has_engine_defaults() {
    let b = Builder::new();
    assert_eq!(b.connect_timeout_secs, None);
    assert_eq!(b.request_timeout_secs, None);
    assert!(!b.https_only);
    assert_eq!(b.redirect_limit, None);
    assert!(!b.http2_adaptive_window);
    assert_eq!(b.http2_initial_stream_window, None);
    assert_eq!(b.proxy, None);
    assert!(!b.strip_sensitive_headers);
    assert_eq!(b.log_level, LogLevel::Info);
    assert!(!b.connection_verbose);
}

#[test]
fn setters_write_exactly_one_field() {
    let b = Builder::new().connect_timeout(30);
    assert_eq!(b.connect_timeout_secs, Some(30));
    assert_eq!(b.request_timeout_secs, None);

    let b = b.request_timeout(60);
    assert_eq!(b.request_timeout_secs, Some(60));
    assert_eq!(b.connect_timeout_secs, Some(30));

    let b = b.https_only(true).redirect_limit(4).http2_adaptive_window(true)
        .strip_sensitive_headers(true);
    assert!(b.https_only);
    assert_eq!(b.redirect_limit, Some(4));
    assert!(b.http2_adaptive_window);
    assert!(b.strip_sensitive_headers);
    assert_eq!(b.connect_timeout_secs, Some(30));
}

#[test]
fn log_level_mapping() {
    assert_eq!(Builder::new().log_level(0).log_level, LogLevel::Off);
    assert_eq!(Builder::new().log_level(1).log_level, LogLevel::Error);
    assert_eq!(Builder::new().log_level(2).log_level, LogLevel::Warn);
    assert_eq!(Builder::new().log_level(3).log_level, LogLevel::Info);
    assert_eq!(Builder::new().log_level(4).log_level, LogLevel::Debug);
    assert_eq!(Builder::new().log_level(5).log_level, LogLevel::Trace);
    assert_eq!(Builder::new().log_level(17).log_level, LogLevel::Info);
}

#[test]
fn maximum_verbosity_switches_wire_logging_on_and_it_stays_on() {
    let b = Builder::new().log_level(5);
    assert!(b.connection_verbose);
    // Lowering the level later does not switch wire logging back off.
    let b = b.log_level(2);
    assert_eq!(b.log_level, LogLevel::Warn);
    assert!(b.connection_verbose);
    // Without level 5 it is never switched on.
    assert!(!Builder::new().log_level(4).connection_verbose);
}

#[test]
fn redirect_limit_zero_follows_no_redirect() {
    assert_eq!(redirect_policy(0), RedirectPolicy::NoFollow);
    assert_eq!(redirect_policy(1), RedirectPolicy::Limited(1));
    assert_eq!(redirect_policy(10), RedirectPolicy::Limited(10));
}

#[test]
fn valid_proxy_url_is_recorded() {
    let b = Builder::new().proxy("http://localhost:8080".to_string()).unwrap();
    assert_eq!(b.proxy, Some("http://localhost:8080".to_string()));
}

#[test]
fn malformed_proxy_url_is_refused() {
    // An unsupported proxy scheme can never parse as a proxy URL.
    let r = Builder::new().proxy("ftp://proxy.invalid".to_string());
    assert_eq!(r.unwrap_err(), BuildError::InvalidProxyUrl);
}

#[test]
fn initial_stream_window_is_the_fixed_constant() {
    assert_eq!(H2_INITIAL_STREAM_WINDOW, 1024 * 256 * 24);
}

#[test]
fn tls_profile_is_bit_exact() {
    let p = TlsProfile::standard();
    assert_eq!(
        p.cipher_suites,
        vec![
            CipherSuiteId::Tls13Aes128GcmSha256,
            CipherSuiteId::Tls13Aes256GcmSha384,
            CipherSuiteId::Tls13Chacha20Poly1305Sha256,
            CipherSuiteId::EcdheEcdsaAes128GcmSha256,
            CipherSuiteId::EcdheRsaAes128GcmSha256,
            CipherSuiteId::EcdheEcdsaAes256GcmSha384,
            CipherSuiteId::EcdheRsaAes256GcmSha384,
            CipherSuiteId::EcdheEcdsaChacha20Poly1305Sha256,
            CipherSuiteId::EcdheRsaChacha20Poly1305Sha256,
        ]
    );
    assert_eq!(p.kx_groups, vec![KxGroupId::X25519, KxGroupId::Secp256r1, KxGroupId::Secp384r1]);
    assert_eq!(p.versions, vec![TlsVersionId::Tls12, TlsVersionId::Tls13]);
    // ALPN prefers HTTP/2, with HTTP/1.1 after it.
    assert_eq!(p.alpn, vec!["h2".to_string(), "http/1.1".to_string()]);
}

#[test]
fn build_fails_when_no_certificate_is_usable() {
    let garbage = vec![vec![0u8, 1, 2, 3], vec![0xFFu8; 16]];
    let r = Builder::new().build_with_certs(&garbage);
    assert_eq!(r.err(), Some(BuildError::NoValidTrustAnchors));
}

#[test]
fn build_tolerates_individual_parse_failures() {
    let cert = rcgen::generate_simple_self_signed(vec!["localhost".to_string()]).unwrap();
    let der = cert.serialize_der().unwrap();
    let certs = vec![vec![0u8, 1, 2, 3], der, vec![0xAAu8; 8]];
    let client = Builder::new().https_only(true).build_with_certs(&certs).unwrap();
    assert_eq!(client.trust.valid, 1);
    assert_eq!(client.trust.invalid, 2);
    // The frozen configuration carries the fixed window and the set fields.
    assert_eq!(client.config.http2_initial_stream_window, Some(H2_INITIAL_STREAM_WINDOW));
    assert!(client.config.https_only);
    // A fresh client starts with an empty cookie store.
    assert!(client.jar.cookies_since(0).is_empty());
}
