//! The plan for configuring a TLS connector from a [`TlsConfig`]: which
//! certificates to trust, which client identity to present, which ciphers and
//! protocol versions to allow.
use std::path::PathBuf;
use vstd::prelude::*;

use crate::config::{TlsConfig, TlsVerifyMode, TlsVersion};
use crate::text::{join, join_with, texts};

verus! {

/// How a TLS connector is to be configured.
pub struct TlsSetup {
    /// Verify the server certificate (strict mode).
    pub verify_peer: bool,
    /// CA certificate files or directories to load, in order.
    pub ca_paths: Vec<PathBuf>,
    /// Load the system's default CA locations.
    pub use_default_verify_paths: bool,
    /// The OpenSSL cipher list (suites joined with `:`), when custom suites are set.
    pub cipher_list: Option<String>,
    /// Lowest protocol version to allow.
    pub min_version: TlsVersion,
    /// Highest protocol version to allow.
    pub max_version: TlsVersion,
    /// Client certificate and private key for mutual TLS.
    pub client_identity: Option<(PathBuf, PathBuf)>,
}

/// `r` is the plan for `tls`:
/// - strict mode verifies the server against the configured CA paths, or
///   against the system's CA store when none are configured; the no-verify
///   mode verifies nothing and loads no CA;
/// - custom cipher suites are joined with `:`; none means the defaults;
/// - the version bounds are taken as given;
/// - a client identity is presented only when both certificate and key are set.
pub open spec fn plan_for(tls: TlsConfig, r: TlsSetup) -> bool {
    &&& r.verify_peer == (tls.verify_mode is Strict)
    &&& tls.verify_mode is Strict ==> r.ca_paths@ == tls.ca_cert_files@
    &&& tls.verify_mode is NoVerify ==> r.ca_paths@.len() == 0
    &&& r.use_default_verify_paths == (tls.verify_mode is Strict && tls.ca_cert_files@.len() == 0)
    &&& tls.cipher_suites@.len() == 0 ==> r.cipher_list is None
    &&& tls.cipher_suites@.len() > 0 ==> (r.cipher_list matches Some(c)
        && c@ == join_with(texts(tls.cipher_suites@), ":"@))
    &&& r.min_version == tls.min_tls_version
    &&& r.max_version == tls.max_tls_version
    &&& match (tls.client_cert_file, tls.client_key_file) {
        (Some(c), Some(k)) => r.client_identity == Some((c, k)),
        _ => r.client_identity is None,
    }
}

/// Law: what a configuration's plan trusts and presents. Strict mode with no
/// CA paths verifies against the system store only; strict mode with CA paths
/// verifies against exactly those paths, in order, and not the system store;
/// no-verify mode verifies nothing and trusts nothing. A client identity is
/// presented exactly when both the certificate and the key are configured, and
/// then it is that certificate with that key. The version bounds are kept as
/// configured, and cipher suites are passed on exactly when some are set.
pub proof fn lemma_plan_follows_config(tls: TlsConfig, r: TlsSetup)
    requires
        plan_for(tls, r),
    ensures
        tls.verify_mode is Strict && tls.ca_cert_files@.len() == 0 ==> r.verify_peer && r.use_default_verify_paths
            && r.ca_paths@.len() == 0,
        tls.verify_mode is Strict && tls.ca_cert_files@.len() > 0 ==> r.verify_peer && !r.use_default_verify_paths
            && r.ca_paths@ == tls.ca_cert_files@,
        tls.verify_mode is NoVerify ==> !r.verify_peer && !r.use_default_verify_paths && r.ca_paths@.len() == 0,
        tls.client_cert_file is Some && tls.client_key_file is Some ==> r.client_identity == Some(
            (tls.client_cert_file->0, tls.client_key_file->0),
        ),
        tls.client_cert_file is None || tls.client_key_file is None ==> r.client_identity is None,
        r.min_version == tls.min_tls_version && r.max_version == tls.max_tls_version,
        r.cipher_list is Some <==> tls.cipher_suites@.len() > 0,
{
}

/// Law: in no-verify mode the plan does not depend on the configured CA paths.
/// Two configurations that differ only in their CA paths give plans that both
/// verify nothing, load no CA (neither a configured path nor the system store),
/// and agree on the cipher list, the version bounds and the client identity.
pub proof fn lemma_no_verify_ignores_ca_paths(a: TlsConfig, b: TlsConfig, ra: TlsSetup, rb: TlsSetup)
    requires
        a.verify_mode is NoVerify,
        b.verify_mode is NoVerify,
        b.client_cert_file == a.client_cert_file,
        b.client_key_file == a.client_key_file,
        b.cipher_suites@ == a.cipher_suites@,
        b.min_tls_version == a.min_tls_version,
        b.max_tls_version == a.max_tls_version,
        plan_for(a, ra),
        plan_for(b, rb),
    ensures
        !ra.verify_peer && !rb.verify_peer,
        ra.ca_paths@.len() == 0 && rb.ca_paths@.len() == 0,
        !ra.use_default_verify_paths && !rb.use_default_verify_paths,
        ra.cipher_list is None <==> rb.cipher_list is None,
        ra.cipher_list matches Some(x) ==> (rb.cipher_list matches Some(y) && x@ == y@),
        ra.min_version == rb.min_version && ra.max_version == rb.max_version,
        ra.client_identity == rb.client_identity,
{
}

impl TlsSetup {
    /// The settings for `tls`, as [`plan_for`] describes them.
    pub fn from_config(tls: TlsConfig) -> (r: TlsSetup)
        ensures
            plan_for(tls, r),
    {
        let cipher_list = if tls.cipher_suites.len() == 0 {
            None
        } else {
            Some(join(&tls.cipher_suites, ":"))
        };
        let (verify_peer, ca_paths, use_default_verify_paths) = match tls.verify_mode {
            TlsVerifyMode::Strict => {
                let no_custom = tls.ca_cert_files.len() == 0;
                (true, tls.ca_cert_files, no_custom)
            },
            TlsVerifyMode::NoVerify => (false, Vec::new(), false),
        };
        let client_identity = match (tls.client_cert_file, tls.client_key_file) {
            (Some(c), Some(k)) => Some((c, k)),
            _ => None,
        };
        TlsSetup {
            verify_peer,
            ca_paths,
            use_default_verify_paths,
            cipher_list,
            min_version: tls.min_tls_version,
            max_version: tls.max_tls_version,
            client_identity,
        }
    }
}

/// One operation on a TLS connector builder.
pub enum TlsStep {
    /// Set the lowest protocol version.
    MinVersion(TlsVersion),
    /// Set the highest protocol version.
    MaxVersion(TlsVersion),
    /// Set the cipher list.
    CipherList(String),
    /// Require and verify the server certificate.
    VerifyPeer,
    /// Load CA certificates from a file or directory.
    LoadCaPath(PathBuf),
    /// Load the system's default CA locations.
    DefaultVerifyPaths,
    /// Verify nothing.
    VerifyNone,
    /// Load the client certificate (PEM).
    ClientCertificate(PathBuf),
    /// Load the client private key (PEM).
    ClientPrivateKey(PathBuf),
    /// Check that the client key matches the certificate.
    CheckPrivateKey,
}

/// The operations that configure a connector for `s`, in order: the version
/// bounds, the cipher list if any, the verification settings (peer
/// verification, then each CA path, then the system store when no CA path is
/// given; or no verification), and finally the client identity with its check.
pub open spec fn setup_steps(s: TlsSetup) -> Seq<TlsStep> {
    seq![TlsStep::MinVersion(s.min_version), TlsStep::MaxVersion(s.max_version)]
        + match s.cipher_list {
            Some(c) => seq![TlsStep::CipherList(c)],
            None => Seq::empty(),
        }
        + if s.verify_peer {
            seq![TlsStep::VerifyPeer]
                + s.ca_paths@.map_values(|p: PathBuf| TlsStep::LoadCaPath(p))
                + if s.use_default_verify_paths { seq![TlsStep::DefaultVerifyPaths] } else { Seq::empty() }
        } else {
            seq![TlsStep::VerifyNone]
        }
        + match s.client_identity {
            Some((c, k)) => seq![TlsStep::ClientCertificate(c), TlsStep::ClientPrivateKey(k), TlsStep::CheckPrivateKey],
            None => Seq::empty(),
        }
}

/// A step that loads or checks the client identity.
pub open spec fn is_identity_step(t: TlsStep) -> bool {
    t is ClientCertificate || t is ClientPrivateKey || t is CheckPrivateKey
}

/// Law: the client identity is configured exactly when the settings carry
/// one, whatever the verification and CA settings. With `Some((c, k))` the
/// steps end with loading `c`, loading `k` and checking that they match, and
/// no earlier step touches the identity; with `None` no step does.
pub proof fn lemma_identity_steps_come_last(s: TlsSetup)
    ensures
        match s.client_identity {
            Some((c, k)) => {
                let st = setup_steps(s);
                &&& st.len() >= 3
                &&& st[st.len() - 3] == TlsStep::ClientCertificate(c)
                &&& st[st.len() - 2] == TlsStep::ClientPrivateKey(k)
                &&& st[st.len() - 1] == TlsStep::CheckPrivateKey
                &&& forall|i: int| 0 <= i < st.len() - 3 ==> !is_identity_step(#[trigger] st[i])
            },
            None => forall|i: int| 0 <= i < setup_steps(s).len() ==> !is_identity_step(#[trigger] setup_steps(s)[i]),
        },
{
    let head = seq![TlsStep::MinVersion(s.min_version), TlsStep::MaxVersion(s.max_version)]
        + match s.cipher_list {
            Some(c) => seq![TlsStep::CipherList(c)],
            None => Seq::empty(),
        };
    let loads = s.ca_paths@.map_values(|p: PathBuf| TlsStep::LoadCaPath(p));
    let verify = if s.verify_peer {
        seq![TlsStep::VerifyPeer] + loads
            + if s.use_default_verify_paths { seq![TlsStep::DefaultVerifyPaths] } else { Seq::empty() }
    } else {
        seq![TlsStep::VerifyNone]
    };
    let tail = match s.client_identity {
        Some((c, k)) => seq![TlsStep::ClientCertificate(c), TlsStep::ClientPrivateKey(k), TlsStep::CheckPrivateKey],
        None => Seq::<TlsStep>::empty(),
    };
    let front = head + verify;
    assert(setup_steps(s) == front + tail);
    assert forall|i: int| 0 <= i < loads.len() implies !is_identity_step(#[trigger] loads[i]) by {}
    assert forall|i: int| 0 <= i < front.len() implies !is_identity_step(#[trigger] front[i]) by {
        if i >= head.len() && s.verify_peer {
            let j = i - head.len();
            if 1 <= j < 1 + loads.len() {
                assert(verify[j] == loads[j - 1]);
            }
        }
    }
    let st = front + tail;
    assert forall|i: int| 0 <= i < front.len() implies #[trigger] st[i] == front[i] by {}
}

/// Law: the order of the configuration steps. The version bounds come first
/// (lowest, then highest), then the cipher list when one is set; then either
/// peer verification followed by each CA path in the order given and, when
/// asked for, the system store, or no verification at all; the client identity
/// (three steps) comes last when there is one. Nothing else is done.
pub proof fn lemma_steps_in_order(s: TlsSetup)
    ensures
        ({
            let st = setup_steps(s);
            let o: int = if s.cipher_list is Some { 1 } else { 0 };
            let n = s.ca_paths@.len() as int;
            let v: int = if s.verify_peer { 1 + n + if s.use_default_verify_paths { 1int } else { 0int } } else { 1 };
            let m: int = if s.client_identity is Some { 3 } else { 0 };
            &&& st.len() == 2 + o + v + m
            &&& st[0] == TlsStep::MinVersion(s.min_version)
            &&& st[1] == TlsStep::MaxVersion(s.max_version)
            &&& (s.cipher_list matches Some(c) ==> st[2] == TlsStep::CipherList(c))
            &&& (s.verify_peer ==> st[2 + o] == TlsStep::VerifyPeer)
            &&& (s.verify_peer ==> forall|i: int| 0 <= i < n ==> #[trigger] st[3 + o + i] == TlsStep::LoadCaPath(s.ca_paths@[i]))
            &&& (s.verify_peer && s.use_default_verify_paths ==> st[3 + o + n] == TlsStep::DefaultVerifyPaths)
            &&& (!s.verify_peer ==> st[2 + o] == TlsStep::VerifyNone)
        }),
{
    let st = setup_steps(s);
    let head = seq![TlsStep::MinVersion(s.min_version), TlsStep::MaxVersion(s.max_version)]
        + match s.cipher_list {
            Some(c) => seq![TlsStep::CipherList(c)],
            None => Seq::empty(),
        };
    let loads = s.ca_paths@.map_values(|p: PathBuf| TlsStep::LoadCaPath(p));
    let sys = if s.use_default_verify_paths { seq![TlsStep::DefaultVerifyPaths] } else { Seq::<TlsStep>::empty() };
    let verify = if s.verify_peer { seq![TlsStep::VerifyPeer] + loads + sys } else { seq![TlsStep::VerifyNone] };
    let tail = match s.client_identity {
        Some((c, k)) => seq![TlsStep::ClientCertificate(c), TlsStep::ClientPrivateKey(k), TlsStep::CheckPrivateKey],
        None => Seq::<TlsStep>::empty(),
    };
    assert(st == head + verify + tail);
    let o: int = if s.cipher_list is Some { 1 } else { 0 };
    let n = s.ca_paths@.len() as int;
    assert(head.len() == 2 + o);
    if s.verify_peer {
        assert forall|i: int| 0 <= i < n implies #[trigger] st[3 + o + i] == TlsStep::LoadCaPath(s.ca_paths@[i]) by {
            assert(st[3 + o + i] == verify[1 + i]);
            assert(verify[1 + i] == loads[i]);
        }
        if s.use_default_verify_paths {
            assert(st[3 + o + n] == verify[1 + n]);
        }
    }
}

impl TlsSetup {
    /// The builder operations that carry out these settings, in the order in
    /// which they are applied; the caller stops at the first that fails.
    pub fn into_steps(self) -> (r: Vec<TlsStep>)
        ensures
            r@ == setup_steps(self),
    {
        let ghost s = self;
        let mut steps: Vec<TlsStep> = Vec::new();
        steps.push(TlsStep::MinVersion(self.min_version));
        steps.push(TlsStep::MaxVersion(self.max_version));
        match self.cipher_list {
            Some(c) => steps.push(TlsStep::CipherList(c)),
            None => {},
        }
        if self.verify_peer {
            steps.push(TlsStep::VerifyPeer);
            let ghost base = steps@;
            let mut rest = self.ca_paths;
            let n = rest.len();
            let mut i: usize = 0;
            while i < n
                invariant
                    n == s.ca_paths@.len(),
                    i <= n,
                    rest@ == s.ca_paths@.skip(i as int),
                    steps@ == base + s.ca_paths@.take(i as int).map_values(|p: PathBuf| TlsStep::LoadCaPath(p)),
                decreases n - i,
            {
                let p = rest.remove(0);
                proof {
                    assert(p == s.ca_paths@[i as int]);
                    assert(s.ca_paths@.take(i + 1).map_values(|p: PathBuf| TlsStep::LoadCaPath(p))
                        =~= s.ca_paths@.take(i as int).map_values(|p: PathBuf| TlsStep::LoadCaPath(p)).push(TlsStep::LoadCaPath(p)));
                    assert(rest@ =~= s.ca_paths@.skip(i + 1));
                }
                steps.push(TlsStep::LoadCaPath(p));
                i = i + 1;
            }
            assert(s.ca_paths@.take(n as int) =~= s.ca_paths@);
            if self.use_default_verify_paths {
                steps.push(TlsStep::DefaultVerifyPaths);
            }
        } else {
            steps.push(TlsStep::VerifyNone);
        }
        match self.client_identity {
            Some((c, k)) => {
                steps.push(TlsStep::ClientCertificate(c));
                steps.push(TlsStep::ClientPrivateKey(k));
                steps.push(TlsStep::CheckPrivateKey);
            },
            None => {},
        }
        assert(steps@ =~= setup_steps(s));
        steps
    }
}

} // verus!
