use ylong_https_proxy::error::ProxyError;
use ylong_https_proxy::proxy::response::parse_connect_response;

fn parse_status(response: &[u8]) -> Result<(), ProxyError> {
    match parse_connect_response(response) {
        Some(outcome) => outcome,
        None => Err(ProxyError::InvalidResponse("Incomplete headers".into())),
    }
}

#[test]
fn parses_200_success() {
    let resp = b"HTTP/1.1 200 Connection Established\r\nProxy-Agent: ylong\r\n\r\n";
    assert!(parse_status(resp).is_ok());
}

#[test]
fn parses_407_auth_failed() {
    let resp = b"HTTP/1.1 407 Proxy Authentication Required\r\n\r\n";
    assert!(matches!(parse_status(resp), Err(ProxyError::AuthFailed(_))));
}

#[test]
fn parses_502_bad_gateway() {
    let resp = b"HTTP/1.1 502 Bad Gateway\r\n\r\n";
    assert!(matches!(parse_status(resp), Err(ProxyError::InvalidResponse(_))));
}
