use vstd::prelude::*;

verus! {

/// The standard I/O error type, carried unchanged inside [`ProxyError::Io`].
#[verifier::external_type_specification]
#[verifier::external_body]
pub struct ExIoError(std::io::Error);

/// The TLS error type of `rustls`, carried unchanged inside [`ProxyError::Tls`].
#[verifier::external_type_specification]
#[verifier::external_body]
pub struct ExRustlsError(rustls::Error);

/// Errors reported while configuring or establishing a proxied connection.
#[derive(Debug)]
pub enum ProxyError {
    Io(std::io::Error),
    InvalidUrl(String),
    AuthFailed(String),
    Tls(rustls::Error),
    TlsError(String),
    ConnectionClosed,
    Timeout,
    InvalidResponse(String),
    PoolExhausted,
}

pub type ProxyResult<T> = Result<T, ProxyError>;

} // verus!
