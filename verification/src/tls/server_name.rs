//! The name under which a tunnel's TLS session addresses the target server.
use rustls::pki_types::ServerName;
use vstd::prelude::*;

verus! {

/// The server name type of `rustls`, carried through unchanged.
#[verifier::external_type_specification]
#[verifier::external_body]
pub struct ExServerName<'a>(rustls::pki_types::ServerName<'a>);

/// The owned server name that `rustls` makes of `domain`: a DNS name holding
/// that text, or an IP address; `None` when the text is neither.
pub uninterp spec fn parsed_server_name(domain: Seq<char>) -> Option<ServerName<'static>>;

/// Parses `domain` with `ServerName::try_from` and takes an owned copy of the
/// result (`ServerName::to_owned`), or the text of the parse error. Trusted:
/// the name is `parsed_server_name` of the text, a function of the text alone;
/// which texts parse is not stated. The error's text is `invalid dns name`,
/// the only one that `InvalidDnsNameError` displays.
#[verifier::external_body]
fn server_name(domain: &str) -> (r: Result<ServerName<'static>, String>)
    ensures
        r is Ok <==> parsed_server_name(domain@) is Some,
        r matches Ok(n) ==> parsed_server_name(domain@) == Some(n),
        r matches Err(e) ==> e@ == "invalid dns name"@,
{
    match ServerName::try_from(domain) {
        Ok(name) => Ok(name.to_owned()),
        Err(e) => Err(e.to_string()),
    }
}

/// The server name for a TLS session to `domain`, or the error `rustls`
/// reports for a text that is neither a DNS name nor an IP address.
pub fn tunnel_server_name(domain: &str) -> (r: Result<ServerName<'static>, String>)
    ensures
        r is Ok <==> parsed_server_name(domain@) is Some,
        r matches Ok(n) ==> parsed_server_name(domain@) == Some(n),
        r matches Err(e) ==> e@ == "invalid dns name"@,
{
    server_name(domain)
}

} // verus!
