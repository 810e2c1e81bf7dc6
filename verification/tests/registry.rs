use ylong_https_proxy::proxy::{ProtocolRegistry, ProxyProtocol, ProxyProtocolType};

struct Fixed {
    kind: ProxyProtocolType,
    id: u32,
}

impl ProxyProtocol for Fixed {
    fn protocol_type(&self) -> ProxyProtocolType {
        self.kind
    }
}

#[test]
fn find_returns_first_registered_of_type() {
    let mut reg: ProtocolRegistry<Fixed> = ProtocolRegistry::new();
    reg.register(Fixed { kind: ProxyProtocolType::Socks5, id: 1 });
    reg.register(Fixed { kind: ProxyProtocolType::HttpConnect, id: 2 });
    reg.register(Fixed { kind: ProxyProtocolType::HttpConnect, id: 3 });
    reg.register(Fixed { kind: ProxyProtocolType::Custom("quic"), id: 4 });
    assert_eq!(reg.find(ProxyProtocolType::HttpConnect).map(|p| p.id), Some(2));
    assert_eq!(reg.find(ProxyProtocolType::Socks5).map(|p| p.id), Some(1));
    assert_eq!(reg.find(ProxyProtocolType::Custom("quic")).map(|p| p.id), Some(4));
    assert!(reg.find(ProxyProtocolType::Custom("quick")).is_none());
    assert!(reg.find(ProxyProtocolType::Socks4).is_none());
}

#[test]
fn registered_types_in_order() {
    let mut reg: ProtocolRegistry<Fixed> = ProtocolRegistry::default();
    assert!(reg.registered_types().is_empty());
    reg.register(Fixed { kind: ProxyProtocolType::Socks4, id: 1 });
    reg.register(Fixed { kind: ProxyProtocolType::Custom("x"), id: 2 });
    assert_eq!(
        reg.registered_types(),
        vec![ProxyProtocolType::Socks4, ProxyProtocolType::Custom("x")]
    );
}

#[test]
fn protocol_type_equality_and_labels() {
    assert_eq!(ProxyProtocolType::Custom("a"), ProxyProtocolType::Custom("a"));
    assert_ne!(ProxyProtocolType::Custom("a"), ProxyProtocolType::Custom("b"));
    assert_ne!(ProxyProtocolType::Socks4, ProxyProtocolType::Socks5);
    assert_eq!(ProxyProtocolType::HttpConnect.label(), "HTTP CONNECT");
    assert_eq!(ProxyProtocolType::Socks4.label(), "SOCKS4");
    assert_eq!(ProxyProtocolType::Socks5.label(), "SOCKS5");
    assert_eq!(ProxyProtocolType::Custom("mine").label(), "mine");
}
