use ylong_https_proxy::error::ProxyError;
use ylong_https_proxy::tls::ca::{ca_file_outcome, ca_path_kind, load_ca_file, unreadable_ca, CaPathKind};
use ylong_https_proxy::tls::server_name::tunnel_server_name;

const FIRST_CA: &str = "-----BEGIN CERTIFICATE-----\nMIIBejCCASGgAwIBAgIUR+i86JLBE401jVOsGywHw31Stx4wCgYIKoZIzj0EAwIw\nEjEQMA4GA1UEAwwHdGVzdC1jYTAgFw0yNjExMTgxODAzNThaGA8yMTI2MTAyNTE4\nMDM1OFowEjEQMA4GA1UEAwwHdGVzdC1jYTBZMBMGByqGSM49AgEGCCqGSM49AwEH\nA0IABILVMq9Hq7r1PtY4Nn5Y5XDS5GZeKshL01QWEooHX9+iNIUoGATOJ+JPWMI9\nGWCfGaoSfPaIHm9eaTdYMWB2CAajUzBRMB0GA1UdDgQWBBTR3g5Z+JbNWnLc7G/+\nIHAEhejQ6zAfBgNVHSMEGDAWgBTR3g5Z+JbNWnLc7G/+IHAEhejQ6zAPBgNVHRMB\nAf8EBTADAQH/MAoGCCqGSM49BAMCA0cAMEQCIGogv710y8LTmEqbZexCVnmBHIwE\nmiDdQcZsYpXqfwcaAiAns3ysFQ0bA0UD30NsAyVyydr1d6qc4OsK4a5ay6VVPw==\n-----END CERTIFICATE-----\n";

const SECOND_CA: &str = "-----BEGIN CERTIFICATE-----\nMIIBfTCCASSgAwIBAgITaPvKahInH5tUBgHnXNXzgN7ogzAKBggqhkjOPQQDAjAU\nMRIwEAYDVQQDDAl0ZXN0LWNhLTIwIBcNMjYxMTE4MTgwMzU4WhgPMjEyNjEwMjUx\nODAzNThaMBQxEjAQBgNVBAMMCXRlc3QtY2EtMjBZMBMGByqGSM49AgEGCCqGSM49\nAwEHA0IABIStUDduANr9ye3mpOC2TcVkJgyTK6v7djYwNWVfgMNe66uuUAk1LPdb\ndkVKKFwzLLdOHckYSS5b18QoPbSFuuGjUzBRMB0GA1UdDgQWBBS82enEIl9OhIxg\nA+8O9WDuNa2WxDAfBgNVHSMEGDAWgBS82enEIl9OhIxgA+8O9WDuNa2WxDAPBgNV\nHRMBAf8EBTADAQH/MAoGCCqGSM49BAMCA0cAMEQCIDehLDBt4ZBLrthZG6EFTQob\nnEv3xX0sqGaYGrPu5XNqAiBgmTmmDCrBx50YRnwE2c0A8eekYtSoZw7web61GC8l\nmQ==\n-----END CERTIFICATE-----\n";

fn tls_message(e: ProxyError) -> String {
    match e {
        ProxyError::TlsError(m) => m,
        other => panic!("unexpected error: {other:?}"),
    }
}

#[test]
fn ca_path_kind_prefers_directory() {
    assert_eq!(ca_path_kind(true, false, "/etc/ssl/certs").unwrap(), CaPathKind::Directory);
    assert_eq!(ca_path_kind(true, true, "/x").unwrap(), CaPathKind::Directory);
    assert_eq!(ca_path_kind(false, true, "/x/ca.pem").unwrap(), CaPathKind::File);
}

#[test]
fn missing_ca_path_is_reported() {
    let e = ca_path_kind(false, false, "/nowhere/ca.pem").unwrap_err();
    assert_eq!(tls_message(e), "CA cert path does not exist: /nowhere/ca.pem");
}

#[test]
fn unreadable_ca_file_is_reported() {
    let e = unreadable_ca("/x/ca.pem", "permission denied");
    assert_eq!(tls_message(e), "Failed to read CA cert file /x/ca.pem: permission denied");
}

#[test]
fn ca_file_outcome_passes_certificates_or_reports_parse_error() {
    assert_eq!(ca_file_outcome("/x", Ok(Vec::new())).unwrap().len(), 0);
    let e = ca_file_outcome("/x/ca.pem", Err("bad base64".to_string())).unwrap_err();
    assert_eq!(tls_message(e), "Failed to parse CA cert file /x/ca.pem: bad base64");
}

#[test]
fn load_ca_file_reads_every_certificate_in_order() {
    let pem = format!("{FIRST_CA}{SECOND_CA}");
    let certs = load_ca_file("/x/ca.pem", pem.as_bytes()).unwrap();
    assert_eq!(certs.len(), 2);
    let first = format!("{:?}", certs[0].subject_name());
    let second = format!("{:?}", certs[1].subject_name());
    assert!(first.contains("test-ca") && !first.contains("test-ca-2"));
    assert!(second.contains("test-ca-2"));
}

#[test]
fn load_ca_file_without_certificates_is_empty() {
    assert_eq!(load_ca_file("/x/ca.pem", b"").unwrap().len(), 0);
    assert_eq!(load_ca_file("/x/ca.pem", b"no pem here").unwrap().len(), 0);
}

#[test]
fn load_ca_file_reports_broken_pem() {
    let pem = b"-----BEGIN CERTIFICATE-----\n!!!!\n-----END CERTIFICATE-----\n";
    let e = load_ca_file("/x/ca.pem", pem).unwrap_err();
    let m = tls_message(e);
    assert!(m.starts_with("Failed to parse CA cert file /x/ca.pem: "), "{m}");
    assert!(m.len() > "Failed to parse CA cert file /x/ca.pem: ".len());
}

#[test]
fn server_names_for_tunnels() {
    assert!(tunnel_server_name("example.com").is_ok());
    assert!(tunnel_server_name("127.0.0.1").is_ok());
    assert_eq!(tunnel_server_name("not a host!").unwrap_err(), "invalid dns name");
    assert_eq!(tunnel_server_name("").unwrap_err(), "invalid dns name");
}
