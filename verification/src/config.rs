//! What a role's TLS engine is to be configured with, written down as plain
//! data: the security policy by name, whom to trust, which identity to
//! present, and whether the peer has to present one.

use vstd::prelude::*;
use vstd::slice::slice_to_vec;

verus! {

/// Whether a server asks its client for a certificate.
#[derive(Clone, Copy, Debug, PartialEq, Eq, Structural)]
pub enum ClientAuthType {
    Required,
    Optional,
    NoAuth,
}

/// Whether two pieces of text are the same, character for character.
pub(crate) fn same_text(a: &str, b: &str) -> (same: bool)
    ensures
        same <==> a@ == b@,
{
    a.to_owned() == b.to_owned()
}

/// The check a role applies to the name in its peer's certificate: the name
/// has to be the one expected, and no other.
#[derive(Clone, Debug)]
pub struct HostNameHandler {
    expected_server_name: String,
}

impl HostNameHandler {
    /// The one name this check accepts.
    pub closed spec fn expected(&self) -> Seq<char> {
        self.expected_server_name@
    }

    /// A check that accepts `expected_server_name` only.
    pub fn new(expected_server_name: &str) -> (handler: Self)
        ensures
            handler.expected() == expected_server_name@,
    {
        HostNameHandler { expected_server_name: expected_server_name.to_owned() }
    }

    /// Whether `hostname` is the expected name.
    pub fn verify_host_name(&self, hostname: &str) -> (accepted: bool)
        ensures
            accepted <==> hostname@ == self.expected(),
    {
        same_text(hostname, self.expected_server_name.as_str())
    }
}

/// A certificate chain together with the private key of its leaf.
#[derive(Clone, Debug)]
pub struct CertKeyPair {
    chain: Vec<u8>,
    key: Vec<u8>,
}

impl View for CertKeyPair {
    type V = (Seq<u8>, Seq<u8>);

    closed spec fn view(&self) -> (Seq<u8>, Seq<u8>) {
        (self.chain@, self.key@)
    }
}

impl CertKeyPair {
    /// The encoded certificate chain.
    pub fn chain(&self) -> (chain: &Vec<u8>)
        ensures
            chain@ == self@.0,
    {
        &self.chain
    }

    /// The encoded private key.
    pub fn key(&self) -> (key: &Vec<u8>)
        ensures
            key@ == self@.1,
    {
        &self.key
    }
}

/// A configuration as mathematics.
pub struct ConfigView {
    /// The name of the security policy; `None` while the engine's default
    /// stands.
    pub security_policy: Option<Seq<char>>,
    /// Whether the trust anchors the engine finds on the system are trusted.
    pub default_trust: bool,
    pub client_auth_type: ClientAuthType,
    /// The trust anchors added by hand, in the order they were added.
    pub trusted: Seq<Seq<u8>>,
    /// The name the hostname check accepts, where a check is installed.
    pub verify_host: Option<Seq<char>>,
    /// The identities to present, chain first and key second.
    pub cert_chains: Seq<(Seq<u8>, Seq<u8>)>,
}

impl ConfigView {
    /// What an engine starts from when nothing has been set.
    pub open spec fn initial() -> ConfigView {
        ConfigView {
            security_policy: None,
            default_trust: true,
            client_auth_type: ClientAuthType::NoAuth,
            trusted: Seq::empty(),
            verify_host: None,
            cert_chains: Seq::empty(),
        }
    }
}

/// A finished configuration for one role.
#[derive(Clone, Debug)]
pub struct Config {
    security_policy: Option<&'static str>,
    default_trust: bool,
    client_auth_type: ClientAuthType,
    trusted: Vec<Vec<u8>>,
    verify_host: Option<HostNameHandler>,
    cert_chains: Vec<CertKeyPair>,
}

impl View for Config {
    type V = ConfigView;

    closed spec fn view(&self) -> ConfigView {
        ConfigView {
            security_policy: match self.security_policy {
                Some(name) => Some(name@),
                None => None,
            },
            default_trust: self.default_trust,
            client_auth_type: self.client_auth_type,
            trusted: Seq::new(self.trusted@.len(), |i: int| self.trusted@[i]@),
            verify_host: match self.verify_host {
                Some(handler) => Some(handler.expected()),
                None => None,
            },
            cert_chains: Seq::new(self.cert_chains@.len(), |i: int| self.cert_chains@[i]@),
        }
    }
}

impl Config {
    /// The name of the security policy, unless the engine's default stands.
    pub fn security_policy(&self) -> (name: Option<&'static str>)
        ensures
            match name {
                Some(name) => self@.security_policy == Some(name@),
                None => self@.security_policy is None,
            },
    {
        self.security_policy
    }

    /// Whether the system's trust anchors are trusted.
    pub fn default_trust(&self) -> (kept: bool)
        ensures
            kept == self@.default_trust,
    {
        self.default_trust
    }

    /// Whether the peer has to present a certificate.
    pub fn client_auth_type(&self) -> (auth: ClientAuthType)
        ensures
            auth == self@.client_auth_type,
    {
        self.client_auth_type
    }

    /// The trust anchors added by hand.
    pub fn trusted_pems(&self) -> (pems: &Vec<Vec<u8>>)
        ensures
            pems@.len() == self@.trusted.len(),
            forall|i: int| 0 <= i < pems@.len() ==> (#[trigger] pems@[i])@ == self@.trusted[i],
    {
        &self.trusted
    }

    /// The hostname check, where one is installed.
    pub fn verify_host(&self) -> (handler: &Option<HostNameHandler>)
        ensures
            match handler {
                Some(handler) => self@.verify_host == Some(handler.expected()),
                None => self@.verify_host is None,
            },
    {
        &self.verify_host
    }

    /// The identities to present.
    pub fn cert_chains(&self) -> (pairs: &Vec<CertKeyPair>)
        ensures
            pairs@.len() == self@.cert_chains.len(),
            forall|i: int|
                0 <= i < pairs@.len() ==> (#[trigger] pairs@[i])@ == self@.cert_chains[i],
    {
        &self.cert_chains
    }
}

/// A configuration in the making.
#[derive(Debug)]
pub struct Builder {
    config: Config,
}

impl View for Builder {
    type V = ConfigView;

    closed spec fn view(&self) -> ConfigView {
        self.config@
    }
}

impl Builder {
    /// Starts from what an engine assumes when nothing has been set.
    pub fn new() -> (builder: Self)
        ensures
            builder@ == ConfigView::initial(),
    {
        let builder = Builder {
            config: Config {
                security_policy: None,
                default_trust: true,
                client_auth_type: ClientAuthType::NoAuth,
                trusted: Vec::new(),
                verify_host: None,
                cert_chains: Vec::new(),
            },
        };
        assert(builder@.trusted =~= Seq::empty());
        assert(builder@.cert_chains =~= Seq::empty());
        builder
    }

    /// Selects the security policy called `policy`.
    pub fn set_security_policy(&mut self, policy: &'static str)
        ensures
            final(self)@ == (ConfigView { security_policy: Some(policy@), ..old(self)@ }),
    {
        self.config.security_policy = Some(policy);
    }

    /// Stops trusting anything: the system's trust anchors and those added by
    /// hand so far.
    pub fn wipe_trust_store(&mut self)
        ensures
            final(self)@ == (ConfigView {
                default_trust: false,
                trusted: Seq::empty(),
                ..old(self)@
            }),
    {
        self.config.default_trust = false;
        self.config.trusted = Vec::new();
        assert(self@.trusted =~= Seq::empty());
        assert(self@.cert_chains =~= old(self)@.cert_chains);
    }

    /// Says whether the peer has to present a certificate.
    pub fn set_client_auth_type(&mut self, auth: ClientAuthType)
        ensures
            final(self)@ == (ConfigView { client_auth_type: auth, ..old(self)@ }),
    {
        self.config.client_auth_type = auth;
    }

    /// Adds `pem` to the trust anchors.
    pub fn trust_pem(&mut self, pem: &[u8])
        ensures
            final(self)@ == (ConfigView { trusted: old(self)@.trusted.push(pem@), ..old(self)@ }),
    {
        self.config.trusted.push(slice_to_vec(pem));
        assert(self@.trusted =~= old(self)@.trusted.push(pem@));
        assert(self@.cert_chains =~= old(self)@.cert_chains);
    }

    /// Installs `handler` as the check on the peer's name.
    pub fn set_verify_host_callback(&mut self, handler: HostNameHandler)
        ensures
            final(self)@ == (ConfigView { verify_host: Some(handler.expected()), ..old(self)@ }),
    {
        self.config.verify_host = Some(handler);
    }

    /// Adds an identity to present: a certificate chain and its private key.
    pub fn load_pem(&mut self, chain: &[u8], key: &[u8])
        ensures
            final(self)@ == (ConfigView {
                cert_chains: old(self)@.cert_chains.push((chain@, key@)),
                ..old(self)@
            }),
    {
        self.config.cert_chains.push(
            CertKeyPair { chain: slice_to_vec(chain), key: slice_to_vec(key) },
        );
        assert(self@.cert_chains =~= old(self)@.cert_chains.push((chain@, key@)));
        assert(self@.trusted =~= old(self)@.trusted);
    }

    /// Finishes the configuration.
    pub fn build(self) -> (config: Config)
        ensures
            config@ == self@,
    {
        self.config
    }
}

} // verus!
