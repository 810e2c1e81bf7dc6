//! Loading custom CA certificates: deciding what a configured CA path is, and
//! turning the PEM text of a CA file into certificates or the error reported
//! for it.
use openssl::x509::X509;
use vstd::prelude::*;

use crate::error::{ProxyError, ProxyResult};

verus! {

/// An X.509 certificate of `openssl`, carried through unchanged.
#[verifier::external_type_specification]
#[verifier::external_body]
pub struct ExX509(openssl::x509::X509);

/// What a configured CA path names on disk.
#[derive(Debug, Clone, Copy, PartialEq, Eq, Structural)]
pub enum CaPathKind {
    /// A directory of hashed CA certificates.
    Directory,
    /// A file of PEM certificates.
    File,
}

/// The message reported for a CA path that names neither a directory nor a file.
pub open spec fn missing_ca_message(path: Seq<char>) -> Seq<char> {
    "CA cert path does not exist: "@ + path
}

/// The message reported for a CA file that could not be read.
pub open spec fn unreadable_ca_message(path: Seq<char>, reason: Seq<char>) -> Seq<char> {
    "Failed to read CA cert file "@ + path + ": "@ + reason
}

/// The message reported for a CA file whose PEM text could not be parsed.
pub open spec fn unparsable_ca_message(path: Seq<char>, reason: Seq<char>) -> Seq<char> {
    "Failed to parse CA cert file "@ + path + ": "@ + reason
}

/// Classifies a CA path from what the file system says of it: a directory is
/// taken as a directory (even if it is also reported as a file), otherwise a
/// file as a file; anything else is an error naming the path.
pub fn ca_path_kind(is_dir: bool, is_file: bool, path_text: &str) -> (r: ProxyResult<CaPathKind>)
    ensures
        is_dir ==> r == Ok::<CaPathKind, ProxyError>(CaPathKind::Directory),
        !is_dir && is_file ==> r == Ok::<CaPathKind, ProxyError>(CaPathKind::File),
        !is_dir && !is_file ==> (r matches Err(ProxyError::TlsError(m)) && m@ == missing_ca_message(path_text@)),
{
    if is_dir {
        Ok(CaPathKind::Directory)
    } else if is_file {
        Ok(CaPathKind::File)
    } else {
        let mut m = String::from_str("CA cert path does not exist: ");
        m.append(path_text);
        Err(ProxyError::TlsError(m))
    }
}

/// The error for a CA file that could not be read, with the reason given.
pub fn unreadable_ca(path_text: &str, reason: &str) -> (r: ProxyError)
    ensures
        r matches ProxyError::TlsError(m) && m@ == unreadable_ca_message(path_text@, reason@),
{
    let mut m = String::from_str("Failed to read CA cert file ");
    m.append(path_text);
    m.append(": ");
    m.append(reason);
    ProxyError::TlsError(m)
}

/// The outcome of loading a CA file once its PEM text has been parsed: the
/// certificates, in file order, or the parse failure reported with the path.
pub fn ca_file_outcome(path_text: &str, parsed: Result<Vec<X509>, String>) -> (r: ProxyResult<Vec<X509>>)
    ensures
        match parsed {
            Ok(certs) => r matches Ok(v) && v@ == certs@,
            Err(e) => r matches Err(ProxyError::TlsError(m)) && m@ == unparsable_ca_message(path_text@, e@),
        },
{
    match parsed {
        Ok(certs) => Ok(certs),
        Err(e) => {
            let mut m = String::from_str("Failed to parse CA cert file ");
            m.append(path_text);
            m.append(": ");
            m.append(e.as_str());
            Err(ProxyError::TlsError(m))
        },
    }
}

/// How many certificates `X509::stack_from_pem` reads from `pem`, or `None`
/// when it reports an error.
pub uninterp spec fn pem_certificate_count(pem: Seq<u8>) -> Option<nat>;

/// Reads every PEM certificate in `pem` with `X509::stack_from_pem`, giving
/// the certificates in order, or the text of the OpenSSL error. Trusted:
/// whether the text parses and how many certificates it yields depend on the
/// bytes alone (`pem_certificate_count`); which texts parse, and what the
/// certificates hold, is not stated. The crate asserts that the input length
/// fits in a C `int`, which the precondition requires.
#[verifier::external_body]
fn pem_certificates(pem: &[u8]) -> (r: Result<Vec<X509>, String>)
    requires
        pem@.len() <= i32::MAX,
    ensures
        match r {
            Ok(certs) => pem_certificate_count(pem@) == Some(certs@.len()),
            Err(_) => pem_certificate_count(pem@) is None,
        },
{
    X509::stack_from_pem(pem).map_err(|e| e.to_string())
}

/// Loads the CA certificates of the file at `path_text` whose contents are
/// `pem`: all the certificates it holds, or a parse error that names the file.
pub fn load_ca_file(path_text: &str, pem: &[u8]) -> (r: ProxyResult<Vec<X509>>)
    requires
        pem@.len() <= i32::MAX,
    ensures
        r is Ok <==> pem_certificate_count(pem@) is Some,
        r matches Ok(v) ==> pem_certificate_count(pem@) == Some(v@.len()),
        r is Err ==> exists|reason: Seq<char>|
            r matches Err(ProxyError::TlsError(m)) && m@ == #[trigger] unparsable_ca_message(path_text@, reason),
{
    let parsed = pem_certificates(pem);
    let ghost seen = parsed;
    let r = ca_file_outcome(path_text, parsed);
    proof {
        if let Err(e) = seen {
            assert(r matches Err(ProxyError::TlsError(m)) && m@ == unparsable_ca_message(path_text@, e@));
        }
    }
    r
}

} // verus!
