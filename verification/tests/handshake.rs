use ylong_https_proxy::error::ProxyError;
use ylong_https_proxy::proxy::response::{
    classify_status_line, find_crlf_crlf, is_established, parse_connect_response,
    tunnel_reply,
};
use ylong_https_proxy::proxy::{ConnectHandshake, HandshakeStep};

#[test]
fn header_end_is_just_past_first_terminator() {
    assert_eq!(find_crlf_crlf(b"HTTP/1.1 200 OK\r\n\r\nbody\r\n\r\n"), Some(19));
    assert_eq!(find_crlf_crlf(b"\r\n\r\n"), Some(4));
    assert_eq!(find_crlf_crlf(b"HTTP/1.1 200 OK\r\n\r"), None);
    assert_eq!(find_crlf_crlf(b""), None);
}

#[test]
fn status_line_is_reported_in_the_error() {
    match classify_status_line("HTTP/1.1 407 Proxy Authentication Required".to_string()) {
        Err(ProxyError::AuthFailed(m)) => assert_eq!(m, "HTTP/1.1 407 Proxy Authentication Required"),
        other => panic!("unexpected {:?}", other),
    }
    match classify_status_line("HTTP/1.1 502 Bad Gateway".to_string()) {
        Err(ProxyError::InvalidResponse(m)) => assert_eq!(m, "HTTP/1.1 502 Bad Gateway"),
        other => panic!("unexpected {:?}", other),
    }
}

#[test]
fn http_1_0_success_is_accepted() {
    assert!(classify_status_line("HTTP/1.0 200 OK".to_string()).is_ok());
    assert!(is_established("HTTP/1.0 200"));
    assert!(!is_established("HTTP/1.1 201 Created"));
    assert!(!is_established("HTTP/2 200"));
}

#[test]
fn status_line_stops_at_first_line_break() {
    let resp = b"HTTP/1.1 403 Forbidden\nX: 407\r\n\r\n";
    match parse_connect_response(resp) {
        Some(Err(ProxyError::InvalidResponse(m))) => assert_eq!(m, "HTTP/1.1 403 Forbidden"),
        other => panic!("unexpected {:?}", other),
    }
}

#[test]
fn invalid_utf8_is_decoded_lossily() {
    let resp = b"HTTP/1.1 502 \xff\r\n\r\n";
    match parse_connect_response(resp) {
        Some(Err(ProxyError::InvalidResponse(m))) => assert_eq!(m, "HTTP/1.1 502 \u{fffd}"),
        other => panic!("unexpected {:?}", other),
    }
}

#[test]
fn incomplete_reply_needs_more() {
    assert!(parse_connect_response(b"HTTP/1.1 200 OK\r\n").is_none());
}

#[test]
fn handshake_over_several_chunks() {
    let mut hs = ConnectHandshake::new();
    assert!(matches!(hs.receive(b"HTTP/1.1 20"), HandshakeStep::NeedMore));
    assert!(matches!(hs.receive(b"0 Connection Established\r\n"), HandshakeStep::NeedMore));
    assert!(matches!(hs.receive(b"\r"), HandshakeStep::NeedMore));
    assert!(matches!(hs.receive(b"\n"), HandshakeStep::Done(Ok(()))));
}

#[test]
fn handshake_end_of_stream_is_connection_closed() {
    let mut hs = ConnectHandshake::new();
    assert!(matches!(hs.receive(b"HTTP/1.1 200"), HandshakeStep::NeedMore));
    assert!(matches!(hs.receive(b""), HandshakeStep::Done(Err(ProxyError::ConnectionClosed))));
}

#[test]
fn verdict_unchanged_by_bytes_after_header_block() {
    let mut hs = ConnectHandshake::new();
    assert!(matches!(hs.receive(b"HTTP/1.1 407 Auth\r\n\r\n"), HandshakeStep::Done(Err(ProxyError::AuthFailed(_)))));
    match hs.receive(b"HTTP/1.1 200 OK\r\n\r\n") {
        HandshakeStep::Done(Err(ProxyError::AuthFailed(m))) => assert_eq!(m, "HTTP/1.1 407 Auth"),
        other => panic!("unexpected {:?}", matches!(other, HandshakeStep::NeedMore)),
    }
}

#[test]
fn legacy_reply_check() {
    assert_eq!(tunnel_reply(b"HTTP/1.1 200 Connection established\r\n\r\n"), Ok(()));
    assert_eq!(tunnel_reply(b"HTTP/1.0 200"), Ok(()));
    assert_eq!(
        tunnel_reply(b"HTTP/1.1 407 Proxy Authentication Required\r\n\r\n"),
        Err("Proxy connection failed: HTTP/1.1 407 Proxy Authentication Required\r\n\r\n".to_string())
    );
    assert_eq!(tunnel_reply(b""), Err("Proxy connection failed: ".to_string()));
    assert_eq!(tunnel_reply(b"HTTP/1.1 502 \xff"), Err("Proxy connection failed: HTTP/1.1 502 \u{FFFD}".to_string()));
}
