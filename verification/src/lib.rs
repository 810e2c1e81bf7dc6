//! HTTPS proxy client logic: proxy configuration, the HTTP CONNECT handshake
//! (request text and reply verdict), the per-target connection pool, the
//! proxy protocol registry and the TLS settings plan.

pub mod codec;
pub mod config;
pub mod error;
pub mod pool;
pub mod proxy;
pub mod text;
pub mod tls;

pub use config::{ProxyAuth, ProxyConfig, ProxyUrl, TlsConfig, TlsVerifyMode, TlsVersion};
pub use error::{ProxyError, ProxyResult};
pub use proxy::{ProtocolRegistry, ProxyProtocol, ProxyProtocolType};
pub use tls::TlsSetup;
