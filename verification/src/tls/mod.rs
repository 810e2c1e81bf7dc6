//! TLS: the settings that a TLS connector is built from, and the configuration
//! of a plain HTTPS tunnel.

pub mod ca;
pub mod server_name;
pub mod settings;
pub mod tunnel_config;

pub use settings::TlsSetup;
pub use tunnel_config::ProxyConfig;
