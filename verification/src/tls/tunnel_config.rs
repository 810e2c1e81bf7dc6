//! Configuration of a plain HTTPS tunnel: the proxy, optional Basic
//! credentials and extra CA certificates.
use vstd::prelude::*;

use crate::config::ProxyUrl;

verus! {

/// Configuration for the HTTPS proxy tunnel.
#[derive(Debug, Clone)]
pub struct ProxyConfig {
    /// Proxy server URL (e.g., http://proxy.example.com:8080)
    pub proxy_url: ProxyUrl,
    /// Basic Auth credentials (username, password)
    pub credentials: Option<(String, String)>,
    /// Custom CA certificates for verification
    pub ca_certs: Vec<Vec<u8>>,
}

impl ProxyConfig {
    /// A configuration for the given proxy, without credentials or extra CAs.
    pub fn new(proxy_url: ProxyUrl) -> (r: Self)
        ensures
            r.proxy_url == proxy_url,
            r.credentials is None,
            r.ca_certs@.len() == 0,
    {
        ProxyConfig { proxy_url, credentials: None, ca_certs: Vec::new() }
    }

    /// The configuration with Basic credentials.
    pub fn with_auth(self, username: String, password: String) -> (r: Self)
        ensures
            r.proxy_url == self.proxy_url,
            r.credentials == Some((username, password)),
            r.ca_certs == self.ca_certs,
    {
        ProxyConfig { credentials: Some((username, password)), ..self }
    }

    /// The configuration with one more CA certificate.
    pub fn with_ca_cert(self, cert: Vec<u8>) -> (r: Self)
        ensures
            r.proxy_url == self.proxy_url,
            r.credentials == self.credentials,
            r.ca_certs@ == self.ca_certs@.push(cert),
    {
        let mut certs = self.ca_certs;
        certs.push(cert);
        ProxyConfig { proxy_url: self.proxy_url, credentials: self.credentials, ca_certs: certs }
    }
}

} // verus!
