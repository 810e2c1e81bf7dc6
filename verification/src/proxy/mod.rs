//! The HTTP CONNECT tunnel: the request sent to the proxy, the reading of its
//! reply, and the registry of proxy protocols.

pub mod protocol;
pub mod request;
pub mod response;

pub use protocol::{ProtocolKind, ProtocolRegistry, ProxyProtocol, ProxyProtocolType};
pub use request::{connect_request, proxy_endpoint, target_endpoint};
pub use response::{find_crlf_crlf, ConnectHandshake, HandshakeStep};
