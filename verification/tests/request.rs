use ylong_https_proxy::config::{ProxyAuth, ProxyUrl};
use ylong_https_proxy::error::ProxyError;
use ylong_https_proxy::proxy::{connect_request, proxy_endpoint, target_endpoint};

#[test]
fn request_without_credentials() {
    assert_eq!(
        connect_request("example.com", 443, None),
        "CONNECT example.com:443 HTTP/1.1\r\nHost: example.com:443\r\n\r\n"
    );
}

#[test]
fn request_with_basic_credentials() {
    assert_eq!(
        connect_request("api.example.com", 8443, Some(("user", "pass"))),
        "CONNECT api.example.com:8443 HTTP/1.1\r\nHost: api.example.com:8443\r\nProxy-Authorization: Basic dXNlcjpwYXNz\r\n\r\n"
    );
}

#[test]
fn request_port_rendering() {
    assert_eq!(connect_request("h", 0, None), "CONNECT h:0 HTTP/1.1\r\nHost: h:0\r\n\r\n");
    assert_eq!(connect_request("h", 65535, None), "CONNECT h:65535 HTTP/1.1\r\nHost: h:65535\r\n\r\n");
    assert_eq!(connect_request("h", 10, None), "CONNECT h:10 HTTP/1.1\r\nHost: h:10\r\n\r\n");
}

#[test]
fn request_base64_padding() {
    let r = connect_request("h", 1, Some(("a", "")));
    assert!(r.contains("Proxy-Authorization: Basic YTo=\r\n"));
    let r = connect_request("h", 1, Some(("ab", "")));
    assert!(r.contains("Proxy-Authorization: Basic YWI6\r\n"));
}

#[test]
fn auth_credentials() {
    let basic = ProxyAuth::Basic { username: "u".to_string(), password: "p".to_string() };
    assert_eq!(basic.credentials(), Some(("u", "p")));
    assert_eq!(ProxyAuth::NoAuth.credentials(), None);
}

#[test]
fn proxy_endpoint_defaults_to_8080() {
    let url = ProxyUrl::parse("http://proxy.local").unwrap();
    assert_eq!(proxy_endpoint(&url).unwrap(), ("proxy.local".to_string(), 8080));
    let url = ProxyUrl::parse("http://127.0.0.1:3128").unwrap();
    assert_eq!(proxy_endpoint(&url).unwrap(), ("127.0.0.1".to_string(), 3128));
}

#[test]
fn proxy_endpoint_without_host() {
    let url = ProxyUrl::parse("unix:/run/proxy.sock").unwrap();
    match proxy_endpoint(&url) {
        Err(ProxyError::InvalidUrl(m)) => assert_eq!(m, "Missing proxy host"),
        other => panic!("unexpected {:?}", other),
    }
}

#[test]
fn target_endpoint_defaults_to_443() {
    assert_eq!(target_endpoint(Some("example.com"), None).unwrap(), ("example.com".to_string(), 443));
    assert_eq!(target_endpoint(Some("example.com"), Some(8443)).unwrap(), ("example.com".to_string(), 8443));
    match target_endpoint(None, Some(1)) {
        Err(ProxyError::InvalidUrl(m)) => assert_eq!(m, "Missing target host"),
        other => panic!("unexpected {:?}", other),
    }
}

#[test]
fn proxy_url_parse() {
    let url = ProxyUrl::parse("http://127.0.0.1:8080").unwrap();
    assert_eq!(url.scheme, "http");
    assert_eq!(url.host_str(), Some("127.0.0.1"));
    assert_eq!(url.port(), Some(8080));
    let url = ProxyUrl::parse("http://example.com:80/").unwrap();
    assert_eq!(url.port(), None);
    assert!(matches!(ProxyUrl::parse("not a url"), Err(ProxyError::InvalidUrl(_))));
}

#[test]
fn proxy_url_from_components() {
    let ok = ProxyUrl::from_components(Ok(("http".to_string(), Some("h".to_string()), Some(1)))).unwrap();
    assert_eq!(ok.host_str(), Some("h"));
    match ProxyUrl::from_components(Err("bad".to_string())) {
        Err(ProxyError::InvalidUrl(m)) => assert_eq!(m, "bad"),
        other => panic!("unexpected {:?}", other),
    }
}
