//! Proxy configuration: the proxy's address, authentication, timeouts, pool
//! sizing and the TLS settings, assembled with a builder.
use std::path::PathBuf;
use std::time::Duration;
use vstd::prelude::*;

use crate::error::{ProxyError, ProxyResult};

verus! {

/// A filesystem path, carried unchanged through the configuration.
#[verifier::external_type_specification]
#[verifier::external_body]
pub struct ExPathBuf(std::path::PathBuf);

/// The span of `secs` whole seconds.
pub uninterp spec fn seconds(secs: u64) -> Duration;

/// The whole number of nanoseconds that `d` spans.
pub uninterp spec fn duration_nanos(d: Duration) -> u128;

/// `Duration::from_secs`: the span of that many whole seconds; it never
/// panics. Trusted: the result is the same value for the same count, and it
/// spans `secs * 1_000_000_000` nanoseconds, as std documents.
pub assume_specification[ core::time::Duration::from_secs ](secs: u64) -> (r: Duration)
    ensures
        r == seconds(secs),
        duration_nanos(r) == secs * 1_000_000_000,
;

/// `Duration::as_nanos`: the whole number of nanoseconds in the span. Trusted:
/// it is `duration_nanos` of the duration.
pub assume_specification[ core::time::Duration::as_nanos ](d: &Duration) -> (r: u128)
    ensures
        r == duration_nanos(*d),
;

/// `Duration` is `Copy`: its clone is the same value.
pub assume_specification[ <std::time::Duration as Clone>::clone ](d: &Duration) -> (r: Duration)
    ensures
        r == *d,
;

// =============================================================================
// Proxy URL
// =============================================================================

/// What `url::Url::parse` makes of `input`: on success the scheme, the host
/// (`Url::host_str`) and the explicit port (`Url::port`, `None` for a scheme's
/// default port); on failure the text of the parse error.
pub uninterp spec fn url_components(input: Seq<char>) -> Result<
    (Seq<char>, Option<Seq<char>>, Option<u16>),
    Seq<char>,
>;

/// The characters of an optional string.
pub open spec fn opt_text(o: Option<String>) -> Option<Seq<char>> {
    match o {
        Some(s) => Some(s@),
        None => None,
    }
}

/// The characters of a parse outcome, component by component.
pub open spec fn components_text(r: Result<(String, Option<String>, Option<u16>), String>) -> Result<
    (Seq<char>, Option<Seq<char>>, Option<u16>),
    Seq<char>,
> {
    match r {
        Ok((scheme, host, port)) => Ok((scheme@, opt_text(host), port)),
        Err(e) => Err(e@),
    }
}

/// Parses `input` with `url::Url::parse` and reads back `scheme()`,
/// `host_str()` and `port()`, or the `ParseError` text. Trusted: the outcome is
/// `url_components(input)`.
#[verifier::external_body]
fn parse_url_components(input: &str) -> (r: Result<(String, Option<String>, Option<u16>), String>)
    ensures
        components_text(r) == url_components(input@),
{
    match url::Url::parse(input) {
        Ok(u) => {
            let host = match u.host_str() {
                Some(h) => Some(h.to_string()),
                None => None,
            };
            Ok((u.scheme().to_string(), host, u.port()))
        },
        Err(e) => Err(e.to_string()),
    }
}

/// The parts of a proxy URL that the library reads.
#[derive(Debug, Clone)]
pub struct ProxyUrl {
    pub scheme: String,
    pub host: Option<String>,
    pub port: Option<u16>,
}

impl ProxyUrl {
    /// Builds a `ProxyUrl` from the outcome of URL parsing: the components on
    /// success, `InvalidUrl` with the parser's message on failure.
    pub fn from_components(parts: Result<(String, Option<String>, Option<u16>), String>) -> (r: ProxyResult<ProxyUrl>)
        ensures
            match parts {
                Ok((scheme, host, port)) => r matches Ok(u) && u.scheme == scheme
                    && u.host == host && u.port == port,
                Err(msg) => r matches Err(ProxyError::InvalidUrl(m)) && m == msg,
            },
    {
        match parts {
            Ok((scheme, host, port)) => Ok(ProxyUrl { scheme, host, port }),
            Err(msg) => Err(ProxyError::InvalidUrl(msg)),
        }
    }

    /// Parses an absolute URL such as `http://127.0.0.1:8080`.
    pub fn parse(input: &str) -> (r: ProxyResult<ProxyUrl>)
        ensures
            match url_components(input@) {
                Ok((scheme, host, port)) => r matches Ok(u) && u.scheme@ == scheme
                    && opt_text(u.host) == host && u.port == port,
                Err(msg) => r matches Err(ProxyError::InvalidUrl(m)) && m@ == msg,
            },
    {
        ProxyUrl::from_components(parse_url_components(input))
    }

    /// The host, if the URL has one.
    pub fn host_str(&self) -> (r: Option<&str>)
        ensures
            match self.host {
                Some(h) => r matches Some(s) && s@ == h@,
                None => r is None,
            },
    {
        match &self.host {
            Some(h) => Some(h.as_str()),
            None => None,
        }
    }

    /// The explicit port, if the URL has one.
    pub fn port(&self) -> (r: Option<u16>)
        ensures
            r == self.port,
    {
        self.port
    }
}

// =============================================================================
// Proxy Authentication
// =============================================================================

/// Credentials presented to the proxy.
#[derive(Debug, Clone)]
pub enum ProxyAuth {
    NoAuth,
    Basic { username: String, password: String },
}

// =============================================================================
// TLS Verification Mode
// =============================================================================

/// How the server certificate is checked.
#[derive(Debug, Clone)]
pub enum TlsVerifyMode {
    /// Strict: verify server certificate against CA chain (default)
    Strict,
    /// No verification: accept any certificate (for testing only)
    NoVerify,
}

// =============================================================================
// TLS Version
// =============================================================================

/// A TLS protocol version.
#[derive(Debug, Clone, Copy, PartialEq, Eq, Structural)]
pub enum TlsVersion {
    Tlsv10,
    Tlsv11,
    Tlsv12,
    Tlsv13,
}

// =============================================================================
// TLS Configuration for the proxy server connection
// =============================================================================

/// TLS settings for connections made through the proxy.
#[derive(Debug, Clone)]
pub struct TlsConfig {
    /// Verification mode (Strict or NoVerify)
    pub verify_mode: TlsVerifyMode,
    /// Paths to CA certificate files or directories
    pub ca_cert_files: Vec<PathBuf>,
    /// Client certificate file (PEM format), for mutual TLS
    pub client_cert_file: Option<PathBuf>,
    /// Client private key file (PEM format), for mutual TLS
    pub client_key_file: Option<PathBuf>,
    /// Custom cipher suites (e.g., "ECDHE-ECDSA-AES256-GCM-SHA384");
    /// if empty, the TLS library's defaults are used
    pub cipher_suites: Vec<String>,
    /// Minimum TLS version (default: TLS 1.2)
    pub min_tls_version: TlsVersion,
    /// Maximum TLS version (default: TLS 1.3)
    pub max_tls_version: TlsVersion,
}

impl TlsConfig {
    /// The default settings: strict verification, no custom CA files, no client
    /// identity, the library's cipher suites, TLS 1.2 to TLS 1.3.
    pub open spec fn is_default(self) -> bool {
        &&& self.verify_mode is Strict
        &&& self.ca_cert_files@.len() == 0
        &&& self.client_cert_file is None
        &&& self.client_key_file is None
        &&& self.cipher_suites@.len() == 0
        &&& self.min_tls_version == TlsVersion::Tlsv12
        &&& self.max_tls_version == TlsVersion::Tlsv13
    }
}

impl Default for TlsConfig {
    fn default() -> (r: Self)
        ensures
            r.is_default(),
    {
        TlsConfig {
            verify_mode: TlsVerifyMode::Strict,
            ca_cert_files: Vec::new(),
            client_cert_file: None,
            client_key_file: None,
            cipher_suites: Vec::new(),
            min_tls_version: TlsVersion::Tlsv12,
            max_tls_version: TlsVersion::Tlsv13,
        }
    }
}

// =============================================================================
// Proxy Configuration (Builder Pattern)
// =============================================================================

/// Complete configuration of a proxy client.
#[derive(Debug, Clone)]
pub struct ProxyConfig {
    pub proxy_url: ProxyUrl,
    pub auth: ProxyAuth,
    pub connect_timeout: Duration,
    pub pool_max_size: usize,
    pub pool_idle_timeout: Duration,
    pub tls_config: TlsConfig,
}

/// Default pool size limit used by the builder.
pub const DEFAULT_POOL_MAX_SIZE: usize = 16;

impl ProxyConfig {
    /// Starts a builder for the given proxy URL, with no authentication, a
    /// 5 s connect timeout, a pool of 16 connections idle for at most 60 s,
    /// and the default TLS settings.
    pub fn builder(proxy_url: ProxyUrl) -> (r: ProxyConfigBuilder)
        ensures
            r@.proxy_url == proxy_url,
            r@.auth is NoAuth,
            r@.connect_timeout == seconds(5),
            r@.pool_max_size == DEFAULT_POOL_MAX_SIZE,
            r@.pool_idle_timeout == seconds(60),
            r@.tls_config.is_default(),
    {
        ProxyConfigBuilder {
            proxy_url,
            auth: ProxyAuth::NoAuth,
            connect_timeout: Duration::from_secs(5),
            pool_max_size: DEFAULT_POOL_MAX_SIZE,
            pool_idle_timeout: Duration::from_secs(60),
            tls_config: TlsConfig::default(),
        }
    }

    /// The configuration with Basic authentication for `user` / `pass`.
    pub open spec fn set_basic_auth(self, user: String, pass: String) -> ProxyConfig {
        ProxyConfig { auth: ProxyAuth::Basic { username: user, password: pass }, ..self }
    }

    /// The configuration with the given connect timeout.
    pub open spec fn set_timeout(self, dur: Duration) -> ProxyConfig {
        ProxyConfig { connect_timeout: dur, ..self }
    }

    /// The configuration with the given pool limit and idle timeout.
    pub open spec fn set_pool(self, max_size: usize, idle: Duration) -> ProxyConfig {
        ProxyConfig { pool_max_size: max_size, pool_idle_timeout: idle, ..self }
    }

    /// The configuration with its TLS settings replaced.
    pub open spec fn set_tls(self, tls: TlsConfig) -> ProxyConfig {
        ProxyConfig { tls_config: tls, ..self }
    }

    /// The configuration with the given verification mode.
    pub open spec fn set_verify_mode(self, mode: TlsVerifyMode) -> ProxyConfig {
        self.set_tls(TlsConfig { verify_mode: mode, ..self.tls_config })
    }

    /// The configuration with the given client certificate.
    pub open spec fn set_client_cert(self, path: PathBuf) -> ProxyConfig {
        self.set_tls(TlsConfig { client_cert_file: Some(path), ..self.tls_config })
    }

    /// The configuration with the given client private key.
    pub open spec fn set_client_key(self, path: PathBuf) -> ProxyConfig {
        self.set_tls(TlsConfig { client_key_file: Some(path), ..self.tls_config })
    }

    /// The configuration with the given cipher suites.
    pub open spec fn set_cipher_suites(self, suites: Vec<String>) -> ProxyConfig {
        self.set_tls(TlsConfig { cipher_suites: suites, ..self.tls_config })
    }

    /// The configuration with the given minimum TLS version.
    pub open spec fn set_min_tls_version(self, v: TlsVersion) -> ProxyConfig {
        self.set_tls(TlsConfig { min_tls_version: v, ..self.tls_config })
    }

    /// The configuration with the given maximum TLS version.
    pub open spec fn set_max_tls_version(self, v: TlsVersion) -> ProxyConfig {
        self.set_tls(TlsConfig { max_tls_version: v, ..self.tls_config })
    }
}

/// Law: each builder setting changes exactly the field it names, to exactly
/// the value given, and leaves every other field as it was. In particular
/// Basic authentication keeps the user name as the user name and the password
/// as the password, and the pool setting takes both the size and the idle
/// timeout given.
pub proof fn lemma_settings_set_their_fields(
    c: ProxyConfig,
    user: String,
    pass: String,
    dur: Duration,
    max_size: usize,
    idle: Duration,
    mode: TlsVerifyMode,
    path: PathBuf,
    suites: Vec<String>,
    v: TlsVersion,
)
    ensures
        c.set_basic_auth(user, pass).auth == (ProxyAuth::Basic { username: user, password: pass }),
        c.set_basic_auth(user, pass).proxy_url == c.proxy_url,
        c.set_basic_auth(user, pass).connect_timeout == c.connect_timeout,
        c.set_basic_auth(user, pass).pool_max_size == c.pool_max_size,
        c.set_basic_auth(user, pass).pool_idle_timeout == c.pool_idle_timeout,
        c.set_basic_auth(user, pass).tls_config == c.tls_config,
        c.set_timeout(dur).connect_timeout == dur,
        c.set_timeout(dur).auth == c.auth,
        c.set_timeout(dur).proxy_url == c.proxy_url,
        c.set_timeout(dur).pool_max_size == c.pool_max_size,
        c.set_timeout(dur).pool_idle_timeout == c.pool_idle_timeout,
        c.set_timeout(dur).tls_config == c.tls_config,
        c.set_pool(max_size, idle).pool_max_size == max_size,
        c.set_pool(max_size, idle).pool_idle_timeout == idle,
        c.set_pool(max_size, idle).auth == c.auth,
        c.set_pool(max_size, idle).proxy_url == c.proxy_url,
        c.set_pool(max_size, idle).connect_timeout == c.connect_timeout,
        c.set_pool(max_size, idle).tls_config == c.tls_config,
        c.set_verify_mode(mode).tls_config.verify_mode == mode,
        c.set_client_cert(path).tls_config.client_cert_file == Some(path),
        c.set_client_key(path).tls_config.client_key_file == Some(path),
        c.set_cipher_suites(suites).tls_config.cipher_suites == suites,
        c.set_min_tls_version(v).tls_config.min_tls_version == v,
        c.set_max_tls_version(v).tls_config.max_tls_version == v,
        c.set_verify_mode(mode).tls_config.ca_cert_files == c.tls_config.ca_cert_files,
        c.set_verify_mode(mode).tls_config.client_cert_file == c.tls_config.client_cert_file,
        c.set_verify_mode(mode).tls_config.client_key_file == c.tls_config.client_key_file,
        c.set_client_cert(path).tls_config.client_key_file == c.tls_config.client_key_file,
        c.set_client_cert(path).tls_config.verify_mode == c.tls_config.verify_mode,
        c.set_client_key(path).tls_config.client_cert_file == c.tls_config.client_cert_file,
        c.set_client_key(path).tls_config.verify_mode == c.tls_config.verify_mode,
        c.set_min_tls_version(v).tls_config.max_tls_version == c.tls_config.max_tls_version,
        c.set_max_tls_version(v).tls_config.min_tls_version == c.tls_config.min_tls_version,
        c.set_verify_mode(mode).auth == c.auth,
        c.set_verify_mode(mode).pool_idle_timeout == c.pool_idle_timeout,
{
}

/// Law: the default TLS settings verify strictly against the system store
/// (no CA files), present no client identity, use the library's cipher suites
/// and allow TLS 1.2 through TLS 1.3.
pub proof fn lemma_default_tls_settings(c: TlsConfig)
    requires
        c.is_default(),
    ensures
        c.verify_mode == TlsVerifyMode::Strict,
        c.ca_cert_files@ == Seq::<PathBuf>::empty(),
        c.client_cert_file is None && c.client_key_file is None,
        c.cipher_suites@ == Seq::<String>::empty(),
        c.min_tls_version == TlsVersion::Tlsv12,
        c.max_tls_version == TlsVersion::Tlsv13,
{
    assert(c.ca_cert_files@ =~= Seq::<PathBuf>::empty());
    assert(c.cipher_suites@ =~= Seq::<String>::empty());
}

/// Law: setting up mutual TLS in one step is the same as setting the client
/// certificate and then the client key.
pub proof fn lemma_mutual_tls_is_cert_then_key(c: ProxyConfig, cert_path: PathBuf, key_path: PathBuf)
    ensures
        c.set_tls(TlsConfig {
            client_cert_file: Some(cert_path),
            client_key_file: Some(key_path),
            ..c.tls_config
        }) == c.set_client_cert(cert_path).set_client_key(key_path),
{
}

/// Collects the settings of a [`ProxyConfig`].
pub struct ProxyConfigBuilder {
    proxy_url: ProxyUrl,
    auth: ProxyAuth,
    connect_timeout: Duration,
    pool_max_size: usize,
    pool_idle_timeout: Duration,
    tls_config: TlsConfig,
}

impl View for ProxyConfigBuilder {
    type V = ProxyConfig;

    /// The configuration that `build` would produce now.
    closed spec fn view(&self) -> ProxyConfig {
        ProxyConfig {
            proxy_url: self.proxy_url,
            auth: self.auth,
            connect_timeout: self.connect_timeout,
            pool_max_size: self.pool_max_size,
            pool_idle_timeout: self.pool_idle_timeout,
            tls_config: self.tls_config,
        }
    }
}

impl ProxyConfigBuilder {
    // --- Auth ---
    /// Authenticate to the proxy with HTTP Basic credentials.
    pub fn with_basic_auth(self, user: String, pass: String) -> (r: Self)
        ensures
            r@ == self@.set_basic_auth(user, pass),
            r@.auth == (ProxyAuth::Basic { username: user, password: pass }),
    {
        let mut this = self;
        this.auth = ProxyAuth::Basic { username: user, password: pass };
        this
    }

    // --- Connection ---
    /// Set the timeout for the TCP connection to the proxy.
    pub fn with_timeout(self, dur: Duration) -> (r: Self)
        ensures
            r@ == self@.set_timeout(dur),
            r@.connect_timeout == dur,
    {
        let mut this = self;
        this.connect_timeout = dur;
        this
    }

    // --- Pool ---
    /// Set the pool size limit and how long an idle connection stays reusable.
    pub fn with_pool(self, max_size: usize, idle: Duration) -> (r: Self)
        ensures
            r@ == self@.set_pool(max_size, idle),
            r@.pool_max_size == max_size,
            r@.pool_idle_timeout == idle,
    {
        let mut this = self;
        this.pool_max_size = max_size;
        this.pool_idle_timeout = idle;
        this
    }

    // --- TLS Verification Mode ---
    /// Set TLS verification mode (Strict or NoVerify)
    pub fn with_verify_mode(self, mode: TlsVerifyMode) -> (r: Self)
        ensures
            r@ == self@.set_verify_mode(mode),
    {
        let mut this = self;
        this.tls_config.verify_mode = mode;
        this
    }

    /// Disable TLS verification (for testing only)
    pub fn with_verify_none(self) -> (r: Self)
        ensures
            r@ == self@.set_verify_mode(TlsVerifyMode::NoVerify),
    {
        let mut this = self;
        this.tls_config.verify_mode = TlsVerifyMode::NoVerify;
        this
    }

    // --- CA Certificates ---
    /// Add a CA certificate file or directory for server verification
    pub fn with_ca_file(self, path: PathBuf) -> (r: Self)
        ensures
            r@.tls_config.ca_cert_files@ == self@.tls_config.ca_cert_files@.push(path),
            r@ == self@.set_tls(TlsConfig { ca_cert_files: r@.tls_config.ca_cert_files, ..self@.tls_config }),
    {
        let mut this = self;
        this.tls_config.ca_cert_files.push(path);
        this
    }

    // --- Mutual TLS (Bidirectional Authentication) ---
    /// Set client certificate for mutual TLS (bidirectional authentication)
    pub fn with_client_cert(self, cert_path: PathBuf) -> (r: Self)
        ensures
            r@ == self@.set_client_cert(cert_path),
    {
        let mut this = self;
        this.tls_config.client_cert_file = Some(cert_path);
        this
    }

    /// Set client private key for mutual TLS (bidirectional authentication)
    pub fn with_client_key(self, key_path: PathBuf) -> (r: Self)
        ensures
            r@ == self@.set_client_key(key_path),
    {
        let mut this = self;
        this.tls_config.client_key_file = Some(key_path);
        this
    }

    /// Set both client certificate and key for mutual TLS
    pub fn with_mutual_tls(self, cert_path: PathBuf, key_path: PathBuf) -> (r: Self)
        ensures
            r@ == self@.set_tls(TlsConfig {
                client_cert_file: Some(cert_path),
                client_key_file: Some(key_path),
                ..self@.tls_config
            }),
    {
        let mut this = self;
        this.tls_config.client_cert_file = Some(cert_path);
        this.tls_config.client_key_file = Some(key_path);
        this
    }

    // --- Cipher Suites ---
    /// Set custom cipher suites for TLS connections
    pub fn with_cipher_suites(self, suites: Vec<String>) -> (r: Self)
        ensures
            r@ == self@.set_cipher_suites(suites),
    {
        let mut this = self;
        this.tls_config.cipher_suites = suites;
        this
    }

    // --- TLS Version ---
    /// Set minimum TLS version
    pub fn with_min_tls_version(self, version: TlsVersion) -> (r: Self)
        ensures
            r@ == self@.set_min_tls_version(version),
    {
        let mut this = self;
        this.tls_config.min_tls_version = version;
        this
    }

    /// Set maximum TLS version
    pub fn with_max_tls_version(self, version: TlsVersion) -> (r: Self)
        ensures
            r@ == self@.set_max_tls_version(version),
    {
        let mut this = self;
        this.tls_config.max_tls_version = version;
        this
    }

    // --- Build ---
    /// The configuration collected so far.
    pub fn build(self) -> (r: ProxyConfig)
        ensures
            r == self@,
    {
        ProxyConfig {
            proxy_url: self.proxy_url,
            auth: self.auth,
            connect_timeout: self.connect_timeout,
            pool_max_size: self.pool_max_size,
            pool_idle_timeout: self.pool_idle_timeout,
            tls_config: self.tls_config,
        }
    }
}

} // verus!
