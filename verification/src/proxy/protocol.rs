//! Proxy protocol kinds, the trait that a proxy protocol implements, and the
//! registry that selects a protocol by kind.
use vstd::prelude::*;
use vstd::std_specs::cmp::PartialEqSpecImpl;

use crate::text::str_equal;

verus! {

/// The type of a proxy protocol.
#[derive(Debug, Clone, Copy)]
pub enum ProxyProtocolType {
    HttpConnect,
    Socks4,
    Socks5,
    Custom(&'static str),
}

/// The abstract value of a [`ProxyProtocolType`]: a custom kind is known by the
/// characters of its name.
pub enum ProtocolKind {
    HttpConnect,
    Socks4,
    Socks5,
    Custom(Seq<char>),
}

impl View for ProxyProtocolType {
    type V = ProtocolKind;

    open spec fn view(&self) -> ProtocolKind {
        match self {
            ProxyProtocolType::HttpConnect => ProtocolKind::HttpConnect,
            ProxyProtocolType::Socks4 => ProtocolKind::Socks4,
            ProxyProtocolType::Socks5 => ProtocolKind::Socks5,
            ProxyProtocolType::Custom(name) => ProtocolKind::Custom(name@),
        }
    }
}

impl PartialEq for ProxyProtocolType {
    fn eq(&self, other: &Self) -> (r: bool) {
        match (self, other) {
            (ProxyProtocolType::HttpConnect, ProxyProtocolType::HttpConnect) => true,
            (ProxyProtocolType::Socks4, ProxyProtocolType::Socks4) => true,
            (ProxyProtocolType::Socks5, ProxyProtocolType::Socks5) => true,
            (ProxyProtocolType::Custom(a), ProxyProtocolType::Custom(b)) => str_equal(a, b),
            _ => false,
        }
    }
}

impl PartialEqSpecImpl for ProxyProtocolType {
    open spec fn obeys_eq_spec() -> bool {
        true
    }

    open spec fn eq_spec(&self, other: &ProxyProtocolType) -> bool {
        self@ == other@
    }
}

impl Eq for ProxyProtocolType {
}

/// The display name of a protocol kind.
pub open spec fn kind_label(k: ProtocolKind) -> Seq<char> {
    match k {
        ProtocolKind::HttpConnect => "HTTP CONNECT"@,
        ProtocolKind::Socks4 => "SOCKS4"@,
        ProtocolKind::Socks5 => "SOCKS5"@,
        ProtocolKind::Custom(name) => name,
    }
}

/// Law: every built-in protocol kind has its own display name, none of them
/// empty, and a custom protocol is shown by its own name.
pub proof fn lemma_labels_tell_kinds_apart(name: Seq<char>)
    ensures
        kind_label(ProtocolKind::HttpConnect) != kind_label(ProtocolKind::Socks4),
        kind_label(ProtocolKind::HttpConnect) != kind_label(ProtocolKind::Socks5),
        kind_label(ProtocolKind::Socks4) != kind_label(ProtocolKind::Socks5),
        kind_label(ProtocolKind::HttpConnect).len() > 0,
        kind_label(ProtocolKind::Socks4).len() > 0,
        kind_label(ProtocolKind::Socks5).len() > 0,
        kind_label(ProtocolKind::Custom(name)) == name,
{
    reveal_strlit("HTTP CONNECT");
    reveal_strlit("SOCKS4");
    reveal_strlit("SOCKS5");
    assert("SOCKS4"@[5] != "SOCKS5"@[5]);
}

impl ProxyProtocolType {
    /// The display name: `HTTP CONNECT`, `SOCKS4`, `SOCKS5`, or a custom
    /// protocol's own name.
    pub fn label(&self) -> (r: String)
        ensures
            r@ == kind_label(self@),
    {
        match self {
            ProxyProtocolType::HttpConnect => String::from_str("HTTP CONNECT"),
            ProxyProtocolType::Socks4 => String::from_str("SOCKS4"),
            ProxyProtocolType::Socks5 => String::from_str("SOCKS5"),
            ProxyProtocolType::Custom(name) => String::from_str(name),
        }
    }
}

/// A proxy protocol (HTTP CONNECT, SOCKS4, SOCKS5, ...). Implementations
/// also provide the tunnel set-up itself; the registry knows a protocol by the
/// type it reports.
pub trait ProxyProtocol: Send + Sync {
    /// The kind this handler reports. An implementation states it; the default
    /// says nothing of it, so a verified implementation has to.
    open spec fn protocol_kind(&self) -> ProtocolKind {
        arbitrary()
    }

    /// Returns the type of this proxy protocol.
    fn protocol_type(&self) -> (r: ProxyProtocolType)
        ensures
            r@ == self.protocol_kind(),
    ;
}

/// `i` is the position of the first handler recorded with kind `k` in `s`.
pub open spec fn is_first_of_kind<P>(s: Seq<(ProtocolKind, P)>, k: ProtocolKind, i: int) -> bool {
    &&& 0 <= i < s.len()
    &&& s[i].0 == k
    &&& forall|j: int| 0 <= j < i ==> s[j].0 != k
}

/// Protocol handlers in registration order, each with the type it reported
/// when it was registered.
pub struct ProtocolRegistry<P> {
    protocols: Vec<(ProxyProtocolType, P)>,
}

impl<P> View for ProtocolRegistry<P> {
    type V = Seq<(ProtocolKind, P)>;

    closed spec fn view(&self) -> Seq<(ProtocolKind, P)> {
        self.protocols@.map_values(|e: (ProxyProtocolType, P)| (e.0@, e.1))
    }
}

impl<P: ProxyProtocol> ProtocolRegistry<P> {
    /// An empty registry.
    pub fn new() -> (r: Self)
        ensures
            r@ == Seq::<(ProtocolKind, P)>::empty(),
    {
        let r = ProtocolRegistry { protocols: Vec::new() };
        assert(r@ =~= Seq::<(ProtocolKind, P)>::empty());
        r
    }

    /// Register a new proxy protocol handler under the type it reports.
    pub fn register(&mut self, protocol: P)
        ensures
            final(self)@ == old(self)@.push((protocol.protocol_kind(), protocol)),
    {
        let t = protocol.protocol_type();
        self.protocols.push((t, protocol));
        assert(final(self)@ =~= old(self)@.push((t@, protocol)));
    }

    /// The first registered handler of the given type, if any.
    pub fn find(&self, protocol_type: ProxyProtocolType) -> (r: Option<&P>)
        ensures
            match r {
                Some(p) => exists|i: int|
                    is_first_of_kind(self@, protocol_type@, i) && *p == #[trigger] self@[i].1,
                None => forall|i: int| 0 <= i < self@.len() ==> #[trigger] self@[i].0 != protocol_type@,
            },
    {
        let n = self.protocols.len();
        let mut i: usize = 0;
        while i < n
            invariant
                n == self@.len(),
                n == self.protocols@.len(),
                i <= n,
                forall|j: int| 0 <= j < i ==> #[trigger] self@[j].0 != protocol_type@,
            decreases n - i,
        {
            if self.protocols[i].0 == protocol_type {
                assert(is_first_of_kind(self@, protocol_type@, i as int));
                let p = &self.protocols[i].1;
                assert(*p == self@[i as int].1);
                return Some(p);
            }
            i = i + 1;
        }
        None
    }

    /// The types of all registered handlers, in registration order.
    pub fn registered_types(&self) -> (r: Vec<ProxyProtocolType>)
        ensures
            r@.len() == self@.len(),
            forall|i: int| 0 <= i < self@.len() ==> #[trigger] r@[i]@ == self@[i].0,
    {
        let n = self.protocols.len();
        let mut types: Vec<ProxyProtocolType> = Vec::new();
        let mut i: usize = 0;
        while i < n
            invariant
                n == self@.len(),
                n == self.protocols@.len(),
                i <= n,
                types@.len() == i,
                forall|j: int| 0 <= j < i ==> #[trigger] types@[j]@ == self@[j].0,
            decreases n - i,
        {
            types.push(self.protocols[i].0);
            i = i + 1;
        }
        types
    }
}

impl<P: ProxyProtocol> Default for ProtocolRegistry<P> {
    fn default() -> (r: Self)
        ensures
            r@ == Seq::<(ProtocolKind, P)>::empty(),
    {
        Self::new()
    }
}

} // verus!
