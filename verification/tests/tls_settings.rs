use std::path::PathBuf;
use ylong_https_proxy::config::{ProxyConfig, ProxyUrl, TlsConfig, TlsVerifyMode, TlsVersion};
use ylong_https_proxy::tls::settings::TlsStep;
use ylong_https_proxy::tls::{ProxyConfig as TunnelConfig, TlsSetup};

fn url() -> ProxyUrl {
    ProxyUrl::parse("http://127.0.0.1:8080").unwrap()
}

#[test]
fn default_config_uses_system_cas() {
    let config = ProxyConfig::builder(url()).build();
    let setup = TlsSetup::from_config(config.tls_config);
    assert!(setup.verify_peer);
    assert!(setup.use_default_verify_paths);
    assert!(setup.ca_paths.is_empty());
    assert!(setup.cipher_list.is_none());
    assert_eq!(setup.min_version, TlsVersion::Tlsv12);
    assert_eq!(setup.max_version, TlsVersion::Tlsv13);
    assert!(setup.client_identity.is_none());
}

#[test]
fn custom_cas_replace_system_store() {
    let config = ProxyConfig::builder(url())
        .with_ca_file(PathBuf::from("/a.pem"))
        .with_ca_file(PathBuf::from("/b"))
        .build();
    let setup = TlsSetup::from_config(config.tls_config);
    assert!(!setup.use_default_verify_paths);
    assert_eq!(setup.ca_paths, vec![PathBuf::from("/a.pem"), PathBuf::from("/b")]);
}

#[test]
fn no_verify_loads_nothing() {
    let config = ProxyConfig::builder(url())
        .with_ca_file(PathBuf::from("/a.pem"))
        .with_verify_mode(TlsVerifyMode::NoVerify)
        .build();
    let setup = TlsSetup::from_config(config.tls_config);
    assert!(!setup.verify_peer);
    assert!(!setup.use_default_verify_paths);
    assert!(setup.ca_paths.is_empty());
}

#[test]
fn cipher_suites_joined_with_colons() {
    let config = ProxyConfig::builder(url())
        .with_cipher_suites(vec!["A".to_string(), "B".to_string(), "C".to_string()])
        .build();
    assert_eq!(TlsSetup::from_config(config.tls_config).cipher_list, Some("A:B:C".to_string()));
}

#[test]
fn client_identity_needs_both_files() {
    let only_cert = ProxyConfig::builder(url()).with_client_cert(PathBuf::from("/c")).build();
    assert!(TlsSetup::from_config(only_cert.tls_config).client_identity.is_none());
    let both = ProxyConfig::builder(url())
        .with_client_cert(PathBuf::from("/c"))
        .with_client_key(PathBuf::from("/k"))
        .build();
    assert_eq!(
        TlsSetup::from_config(both.tls_config).client_identity,
        Some((PathBuf::from("/c"), PathBuf::from("/k")))
    );
}

#[test]
fn mutual_tls_equals_cert_then_key() {
    let a = ProxyConfig::builder(url())
        .with_mutual_tls(PathBuf::from("/c"), PathBuf::from("/k"))
        .build();
    let b = ProxyConfig::builder(url())
        .with_client_cert(PathBuf::from("/c"))
        .with_client_key(PathBuf::from("/k"))
        .build();
    assert_eq!(a.tls_config.client_cert_file, b.tls_config.client_cert_file);
    assert_eq!(a.tls_config.client_key_file, b.tls_config.client_key_file);
}

#[test]
fn tls_config_default_values() {
    let d = TlsConfig::default();
    assert!(matches!(d.verify_mode, TlsVerifyMode::Strict));
    assert!(d.ca_cert_files.is_empty() && d.cipher_suites.is_empty());
    assert_eq!(d.min_tls_version, TlsVersion::Tlsv12);
    assert_eq!(d.max_tls_version, TlsVersion::Tlsv13);
}

#[test]
fn builder_defaults() {
    let c = ProxyConfig::builder(url()).build();
    assert_eq!(c.connect_timeout.as_secs(), 5);
    assert_eq!(c.pool_max_size, 16);
    assert_eq!(c.pool_idle_timeout.as_secs(), 60);
}

#[test]
fn tunnel_config_builders() {
    let c = TunnelConfig::new(url()).with_auth("u".into(), "p".into()).with_ca_cert(vec![1, 2]);
    assert_eq!(c.credentials, Some(("u".to_string(), "p".to_string())));
    assert_eq!(c.ca_certs, vec![vec![1u8, 2]]);
    assert_eq!(c.proxy_url.host_str(), Some("127.0.0.1"));
}

#[test]
fn configuration_steps_in_order() {
    let config = ProxyConfig::builder(url())
        .with_ca_file(PathBuf::from("/a.pem"))
        .with_ca_file(PathBuf::from("/b"))
        .with_cipher_suites(vec!["X".to_string()])
        .with_mutual_tls(PathBuf::from("/c"), PathBuf::from("/k"))
        .build();
    let steps = TlsSetup::from_config(config.tls_config).into_steps();
    assert_eq!(steps.len(), 9);
    assert!(matches!(steps[0], TlsStep::MinVersion(TlsVersion::Tlsv12)));
    assert!(matches!(steps[1], TlsStep::MaxVersion(TlsVersion::Tlsv13)));
    assert!(matches!(&steps[2], TlsStep::CipherList(c) if c == "X"));
    assert!(matches!(steps[3], TlsStep::VerifyPeer));
    assert!(matches!(&steps[4], TlsStep::LoadCaPath(p) if p == &PathBuf::from("/a.pem")));
    assert!(matches!(&steps[5], TlsStep::LoadCaPath(p) if p == &PathBuf::from("/b")));
    assert!(matches!(&steps[6], TlsStep::ClientCertificate(p) if p == &PathBuf::from("/c")));
    assert!(matches!(&steps[7], TlsStep::ClientPrivateKey(p) if p == &PathBuf::from("/k")));
    assert!(matches!(steps[8], TlsStep::CheckPrivateKey));
}

#[test]
fn configuration_steps_default_and_no_verify() {
    let steps = TlsSetup::from_config(ProxyConfig::builder(url()).build().tls_config).into_steps();
    assert_eq!(steps.len(), 4);
    assert!(matches!(steps[2], TlsStep::VerifyPeer));
    assert!(matches!(steps[3], TlsStep::DefaultVerifyPaths));
    let cfg = ProxyConfig::builder(url()).with_verify_none().build();
    let steps = TlsSetup::from_config(cfg.tls_config).into_steps();
    assert_eq!(steps.len(), 3);
    assert!(matches!(steps[2], TlsStep::VerifyNone));
}

#[test]
fn no_verify_plan_ignores_ca_paths() {
    let with_cas = ProxyConfig::builder(url())
        .with_verify_mode(TlsVerifyMode::NoVerify)
        .with_ca_file(PathBuf::from("/a.pem"))
        .with_ca_file(PathBuf::from("/does/not/exist"))
        .with_cipher_suites(vec!["AES128-SHA".to_string()])
        .build();
    let without = ProxyConfig::builder(url())
        .with_verify_mode(TlsVerifyMode::NoVerify)
        .with_cipher_suites(vec!["AES128-SHA".to_string()])
        .build();
    let a = TlsSetup::from_config(with_cas.tls_config);
    let b = TlsSetup::from_config(without.tls_config);
    assert_eq!(a.verify_peer, b.verify_peer);
    assert_eq!(a.ca_paths, b.ca_paths);
    assert_eq!(a.use_default_verify_paths, b.use_default_verify_paths);
    assert_eq!(a.cipher_list, b.cipher_list);
    assert_eq!(a.min_version, b.min_version);
    assert_eq!(a.max_version, b.max_version);
    assert_eq!(a.client_identity, b.client_identity);
    let steps = TlsSetup::from_config(
        ProxyConfig::builder(url())
            .with_verify_mode(TlsVerifyMode::NoVerify)
            .with_ca_file(PathBuf::from("/a.pem"))
            .build()
            .tls_config,
    )
    .into_steps();
    assert!(!steps.iter().any(|s| matches!(s, TlsStep::LoadCaPath(_) | TlsStep::DefaultVerifyPaths)));
}
