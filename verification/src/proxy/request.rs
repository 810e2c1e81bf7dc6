//! The CONNECT request sent to the proxy and the addresses it names.
use vstd::prelude::*;
use vstd::utf8::encode_utf8;

use crate::codec::{base64_encode, base64_fits, base64_standard};
use crate::config::{ProxyAuth, ProxyUrl};
use crate::error::{ProxyError, ProxyResult};
use crate::text::{decimal, push_decimal};

verus! {

/// Port assumed for the proxy when its URL names none.
pub const DEFAULT_PROXY_PORT: u16 = 8080;

/// Port assumed for the target when its URI names none.
pub const DEFAULT_TARGET_PORT: u16 = 443;

/// `host:port`, the port in decimal.
pub open spec fn authority_text(host: Seq<char>, port: u16) -> Seq<char> {
    host + ":"@ + decimal(port as nat)
}

/// The bytes that are Base64-encoded for Basic authentication: the UTF-8 of
/// `user:pass`.
pub open spec fn basic_credential_bytes(user: Seq<char>, pass: Seq<char>) -> Seq<u8> {
    encode_utf8(user + ":"@ + pass)
}

/// The `Proxy-Authorization` header line, if credentials are given.
pub open spec fn auth_header_text(credentials: Option<(Seq<char>, Seq<char>)>) -> Seq<char> {
    match credentials {
        Some((user, pass)) => "Proxy-Authorization: Basic "@ + base64_standard(
            basic_credential_bytes(user, pass),
        ) + "\r\n"@,
        None => Seq::empty(),
    }
}

/// The full CONNECT request for `host:port`:
/// `CONNECT host:port HTTP/1.1\r\nHost: host:port\r\n`, the optional
/// `Proxy-Authorization` line, and the blank line that ends the request.
pub open spec fn connect_request_text(
    host: Seq<char>,
    port: u16,
    credentials: Option<(Seq<char>, Seq<char>)>,
) -> Seq<char> {
    "CONNECT "@ + authority_text(host, port) + " HTTP/1.1\r\nHost: "@ + authority_text(host, port)
        + "\r\n"@ + auth_header_text(credentials) + "\r\n"@
}

/// Law: the shape of every CONNECT request. It opens with the request line
/// `CONNECT host:port HTTP/1.1` (the port in decimal), is followed by
/// `Host: host:port`, ends with an empty line (`\r\n\r\n`), and, when
/// credentials `(user, pass)` are given, carries the line
/// `Proxy-Authorization: Basic ` followed by the standard Base64 of the UTF-8
/// of `user:pass` (user name first) right after the `Host` line.
pub proof fn lemma_connect_request_shape(
    host: Seq<char>,
    port: u16,
    credentials: Option<(Seq<char>, Seq<char>)>,
)
    ensures
        ({
            let text = connect_request_text(host, port, credentials);
            let head = "CONNECT "@ + host + ":"@ + decimal(port as nat) + " HTTP/1.1\r\n"@
                + "Host: "@ + host + ":"@ + decimal(port as nat) + "\r\n"@;
            &&& head.is_prefix_of(text)
            &&& text.len() >= head.len() + 2
            &&& text.subrange(text.len() - 2, text.len() as int) == "\r\n"@
            &&& text.subrange(head.len() - 2, head.len() as int) == "\r\n"@
            &&& match credentials {
                Some((user, pass)) => {
                    let line = "Proxy-Authorization: Basic "@ + base64_standard(encode_utf8(user + ":"@ + pass))
                        + "\r\n"@;
                    &&& text.len() == head.len() + line.len() + 2
                    &&& text.subrange(head.len() as int, (head.len() + line.len()) as int) == line
                },
                None => text.len() == head.len() + 2,
            }
        }),
{
    reveal_strlit("CONNECT ");
    reveal_strlit(":");
    reveal_strlit(" HTTP/1.1\r\nHost: ");
    reveal_strlit(" HTTP/1.1\r\n");
    reveal_strlit("Host: ");
    reveal_strlit("\r\n");
    let text = connect_request_text(host, port, credentials);
    let auth = authority_text(host, port);
    let head = "CONNECT "@ + host + ":"@ + decimal(port as nat) + " HTTP/1.1\r\n"@
        + "Host: "@ + host + ":"@ + decimal(port as nat) + "\r\n"@;
    let head2 = "CONNECT "@ + auth + " HTTP/1.1\r\nHost: "@ + auth + "\r\n"@;
    assert(head =~= head2);
    let hdr = auth_header_text(credentials);
    assert(text =~= head2 + hdr + "\r\n"@);
    assert(head.is_prefix_of(text)) by {
        assert(text.subrange(0, head.len() as int) =~= head);
    }
    assert(text.subrange(head.len() - 2, head.len() as int) =~= head.subrange(head.len() - 2, head.len() as int));
    assert(head.subrange(head.len() - 2, head.len() as int) =~= "\r\n"@);
    assert(text.subrange(text.len() - 2, text.len() as int) =~= "\r\n"@);
    match credentials {
        Some((user, pass)) => {
            let line = "Proxy-Authorization: Basic "@ + base64_standard(encode_utf8(user + ":"@ + pass)) + "\r\n"@;
            assert(hdr == line);
            assert(text.subrange(head.len() as int, (head.len() + line.len()) as int) =~= line);
        },
        None => {},
    }
}

/// Credentials whose Base64 text has a length that fits in a `usize`.
pub open spec fn credentials_fit(credentials: Option<(&str, &str)>) -> bool {
    credentials matches Some((user, pass)) ==> base64_fits(
        basic_credential_bytes(user@, pass@).len(),
    )
}

/// The characters of optional credentials.
pub open spec fn credentials_text(credentials: Option<(&str, &str)>) -> Option<(Seq<char>, Seq<char>)> {
    match credentials {
        Some((user, pass)) => Some((user@, pass@)),
        None => None,
    }
}

impl ProxyAuth {
    /// The user name and password, for Basic authentication.
    pub fn credentials(&self) -> (r: Option<(&str, &str)>)
        ensures
            match self {
                ProxyAuth::NoAuth => r is None,
                ProxyAuth::Basic { username, password } => r matches Some((u, p)) && u@ == username@
                    && p@ == password@,
            },
    {
        match self {
            ProxyAuth::NoAuth => None,
            ProxyAuth::Basic { username, password } => Some((username.as_str(), password.as_str())),
        }
    }
}

/// Appends `host:port` to `out`.
fn push_authority(out: &mut String, host: &str, port: u16)
    ensures
        final(out)@ == old(out)@ + authority_text(host@, port),
{
    out.append(host);
    out.append(":");
    push_decimal(out, port);
    assert(final(out)@ =~= old(out)@ + authority_text(host@, port));
}

/// The CONNECT request asking the proxy for a tunnel to `host:port`, with a
/// Basic `Proxy-Authorization` header when credentials are given.
pub fn connect_request(host: &str, port: u16, credentials: Option<(&str, &str)>) -> (r: String)
    requires
        credentials_fit(credentials),
    ensures
        r@ == connect_request_text(host@, port, credentials_text(credentials)),
{
    let mut req = String::from_str("CONNECT ");
    push_authority(&mut req, host, port);
    req.append(" HTTP/1.1\r\nHost: ");
    push_authority(&mut req, host, port);
    req.append("\r\n");
    let ghost before_auth = req@;
    match credentials {
        Some((user, pass)) => {
            let mut cred = String::from_str(user);
            cred.append(":");
            cred.append(pass);
            let token = base64_encode(cred.as_str().as_bytes());
            req.append("Proxy-Authorization: Basic ");
            req.append(token.as_str());
            req.append("\r\n");
        },
        None => {},
    }
    assert(req@ =~= before_auth + auth_header_text(credentials_text(credentials)));
    req.append("\r\n");
    assert(req@ =~= connect_request_text(host@, port, credentials_text(credentials)));
    req
}

/// Where to open the TCP connection to the proxy: its host and its port
/// (8080 when the URL names none). Fails with `InvalidUrl` when the URL has no
/// host.
pub fn proxy_endpoint(url: &ProxyUrl) -> (r: ProxyResult<(String, u16)>)
    ensures
        match url.host {
            None => r matches Err(ProxyError::InvalidUrl(m)) && m@ == "Missing proxy host"@,
            Some(h) => r matches Ok((host, port)) && host@ == h@ && port == match url.port {
                Some(p) => p,
                None => DEFAULT_PROXY_PORT,
            },
        },
{
    let port = match url.port {
        Some(p) => p,
        None => DEFAULT_PROXY_PORT,
    };
    match &url.host {
        Some(h) => Ok((h.clone(), port)),
        None => Err(ProxyError::InvalidUrl(String::from_str("Missing proxy host"))),
    }
}

/// The host and port named in the CONNECT request for a target URI (port 443
/// when the URI names none). Fails with `InvalidUrl` when the URI has no host.
pub fn target_endpoint(host: Option<&str>, port: Option<u16>) -> (r: ProxyResult<(String, u16)>)
    ensures
        match host {
            None => r matches Err(ProxyError::InvalidUrl(m)) && m@ == "Missing target host"@,
            Some(h) => r matches Ok((hs, p)) && hs@ == h@ && p == match port {
                Some(q) => q,
                None => DEFAULT_TARGET_PORT,
            },
        },
{
    let p = match port {
        Some(q) => q,
        None => DEFAULT_TARGET_PORT,
    };
    match host {
        Some(h) => Ok((String::from_str(h), p)),
        None => Err(ProxyError::InvalidUrl(String::from_str("Missing target host"))),
    }
}

} // verus!
