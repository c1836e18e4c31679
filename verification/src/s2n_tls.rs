//! The harness for the s2n-tls engine: the configuration each role gets, the
//! bridge between the engine's I/O callbacks and the duplex channel, and the
//! bookkeeping of the handshake.

use crate::buffer::{ChannelView, ConnectedBuffer};
use crate::config::{same_text, Builder, ClientAuthType, Config, ConfigView, HostNameHandler};
use crate::connection::{Blinding, Connection, ConnectionView, PollOutcome, Version};
use crate::error::{
    ConstructionError, HandshakeError, TransferError, TransferOp, UnrecognizedNegotiatedValue,
};
use crate::harness::{CipherSuite, CryptoConfig, ECGroup, HandshakeType, Mode, PemType, SigType};
use crate::pem::{PemStore, PemStoreView};
use crate::sys::{set_errno, would_block_code};
use vstd::prelude::*;

verus! {

/// The security policy, by name, that a run with this cipher suite and this
/// group is given.
pub open spec fn security_policy_name(cipher_suite: CipherSuite, ec_group: ECGroup) -> Seq<char> {
    match (cipher_suite, ec_group) {
        (CipherSuite::AES_128_GCM_SHA256, ECGroup::SECP256R1) => "20230317"@,
        (CipherSuite::AES_256_GCM_SHA384, ECGroup::SECP256R1) => "20190802"@,
        (CipherSuite::AES_128_GCM_SHA256, ECGroup::X25519) => "default_tls13"@,
        (CipherSuite::AES_256_GCM_SHA384, ECGroup::X25519) => "20190801"@,
    }
}

/// The server name both roles expect in a certificate.
pub open spec fn expected_server_name() -> Seq<char> {
    "localhost"@
}

/// What the server asks of the client under each kind of handshake.
pub open spec fn client_auth_for(handshake_type: HandshakeType) -> ClientAuthType {
    match handshake_type {
        HandshakeType::ServerAuth => ClientAuthType::NoAuth,
        HandshakeType::MutualAuth => ClientAuthType::Required,
    }
}

/// What the two roles' configurations have in common: the policy, an empty
/// trust store, and the demand made on the client.
pub open spec fn common_config(
    crypto_config: CryptoConfig,
    handshake_type: HandshakeType,
) -> ConfigView {
    ConfigView {
        security_policy: Some(
            security_policy_name(crypto_config.cipher_suite, crypto_config.ec_group),
        ),
        default_trust: false,
        client_auth_type: client_auth_for(handshake_type),
        trusted: Seq::empty(),
        verify_host: None,
        cert_chains: Seq::empty(),
    }
}

/// The error for a piece of material that is not there.
pub open spec fn missing(pem_type: PemType, sig_type: SigType) -> ConstructionError {
    ConstructionError::MissingPem { pem_type, sig_type }
}

/// The client's configuration, or the first piece of material found missing.
/// The client trusts the certificate authority and checks the server's name;
/// it presents an identity of its own only where both sides authenticate.
pub open spec fn client_config(
    crypto_config: CryptoConfig,
    handshake_type: HandshakeType,
    pems: PemStoreView,
) -> Result<ConfigView, ConstructionError> {
    let sig = crypto_config.sig_type;
    let mutual = handshake_type == HandshakeType::MutualAuth;
    if !pems.contains_key((PemType::CACert, sig)) {
        Err(missing(PemType::CACert, sig))
    } else if mutual && !pems.contains_key((PemType::ClientCertChain, sig)) {
        Err(missing(PemType::ClientCertChain, sig))
    } else if mutual && !pems.contains_key((PemType::ClientKey, sig)) {
        Err(missing(PemType::ClientKey, sig))
    } else {
        Ok(
            ConfigView {
                trusted: seq![pems[(PemType::CACert, sig)]],
                verify_host: Some(expected_server_name()),
                cert_chains: if mutual {
                    seq![(pems[(PemType::ClientCertChain, sig)], pems[(PemType::ClientKey, sig)])]
                } else {
                    Seq::empty()
                },
                ..common_config(crypto_config, handshake_type)
            },
        )
    }
}

/// The server's configuration, or the first piece of material found missing.
/// The server always presents its identity; it trusts the certificate
/// authority and checks the client's name only where both sides
/// authenticate.
pub open spec fn server_config(
    crypto_config: CryptoConfig,
    handshake_type: HandshakeType,
    pems: PemStoreView,
) -> Result<ConfigView, ConstructionError> {
    let sig = crypto_config.sig_type;
    let mutual = handshake_type == HandshakeType::MutualAuth;
    if !pems.contains_key((PemType::ServerCertChain, sig)) {
        Err(missing(PemType::ServerCertChain, sig))
    } else if !pems.contains_key((PemType::ServerKey, sig)) {
        Err(missing(PemType::ServerKey, sig))
    } else if mutual && !pems.contains_key((PemType::CACert, sig)) {
        Err(missing(PemType::CACert, sig))
    } else {
        Ok(
            ConfigView {
                trusted: if mutual {
                    seq![pems[(PemType::CACert, sig)]]
                } else {
                    Seq::empty()
                },
                verify_host: if mutual {
                    Some(expected_server_name())
                } else {
                    None
                },
                cert_chains: seq![
                    (pems[(PemType::ServerCertChain, sig)], pems[(PemType::ServerKey, sig)]),
                ],
                ..common_config(crypto_config, handshake_type)
            },
        )
    }
}

/// The name of the security policy for `cipher_suite` and `ec_group`.
pub fn security_policy(cipher_suite: CipherSuite, ec_group: ECGroup) -> (name: &'static str)
    ensures
        name@ == security_policy_name(cipher_suite, ec_group),
{
    match (cipher_suite, ec_group) {
        (CipherSuite::AES_128_GCM_SHA256, ECGroup::SECP256R1) => "20230317",
        (CipherSuite::AES_256_GCM_SHA384, ECGroup::SECP256R1) => "20190802",
        (CipherSuite::AES_128_GCM_SHA256, ECGroup::X25519) => "default_tls13",
        (CipherSuite::AES_256_GCM_SHA384, ECGroup::X25519) => "20190801",
    }
}

/// The outcome of a configuration step that needs a piece of key material.
fn require_pem<'a>(pems: &'a PemStore, pem_type: PemType, sig_type: SigType) -> (found: Result<
    &'a Vec<u8>,
    ConstructionError,
>)
    ensures
        match found {
            Ok(bytes) => pems@.contains_key((pem_type, sig_type)) && bytes@ == pems@[(
                pem_type,
                sig_type,
            )],
            Err(e) => !pems@.contains_key((pem_type, sig_type)) && e == missing(
                pem_type,
                sig_type,
            ),
        },
{
    match pems.read_to_bytes(pem_type, sig_type) {
        Some(bytes) => Ok(bytes),
        None => Err(ConstructionError::MissingPem { pem_type, sig_type }),
    }
}

/// The name the engine reports a cipher suite under.
pub open spec fn cipher_suite_name(cipher_suite: CipherSuite) -> Seq<char> {
    match cipher_suite {
        CipherSuite::AES_128_GCM_SHA256 => "TLS_AES_128_GCM_SHA256"@,
        CipherSuite::AES_256_GCM_SHA384 => "TLS_AES_256_GCM_SHA384"@,
    }
}

/// The cipher suite that `name` stands for, if it stands for one.
pub open spec fn recognized_cipher_suite(name: Seq<char>) -> Option<CipherSuite> {
    if name == cipher_suite_name(CipherSuite::AES_128_GCM_SHA256) {
        Some(CipherSuite::AES_128_GCM_SHA256)
    } else if name == cipher_suite_name(CipherSuite::AES_256_GCM_SHA384) {
        Some(CipherSuite::AES_256_GCM_SHA384)
    } else {
        None
    }
}

/// How many times one driving cycle polls each role.
pub const ROUNDS_PER_CYCLE: usize = 2;

/// How many polls one driving cycle makes in all.
pub const STEPS_PER_CYCLE: usize = 2 * ROUNDS_PER_CYCLE;

/// The order in which one driving cycle polls the roles: the client, then
/// the server, and both once more.
pub open spec fn schedule() -> Seq<Mode> {
    Seq::new(
        STEPS_PER_CYCLE as nat,
        |i: int|
            if i % 2 == 0 {
                Mode::Client
            } else {
                Mode::Server
            },
    )
}

/// How far one driving cycle has come.
#[derive(Clone, Copy, Debug)]
pub struct HandshakeCycle {
    position: usize,
}

impl HandshakeCycle {
    /// The number of steps behind this cycle; the length of the schedule once
    /// the cycle is over.
    pub closed spec fn position(&self) -> nat {
        self.position as nat
    }

    /// The role to poll next, or `None` once the cycle is over.
    pub open spec fn spec_next_role(&self) -> Option<Mode> {
        if self.position() < schedule().len() {
            Some(schedule()[self.position() as int])
        } else {
            None
        }
    }

    /// A cycle at its beginning.
    pub fn new() -> (cycle: Self)
        ensures
            cycle.position() == 0,
    {
        HandshakeCycle { position: 0 }
    }

    /// The role to poll next, or `None` once the cycle is over.
    #[verifier::when_used_as_spec(spec_next_role)]
    pub fn next_role(&self) -> (role: Option<Mode>)
        ensures
            role == self.spec_next_role(),
    {
        if self.position >= STEPS_PER_CYCLE {
            None
        } else if self.position % 2 == 0 {
            Some(Mode::Client)
        } else {
            Some(Mode::Server)
        }
    }
}

/// The harness as mathematics.
pub struct HarnessView {
    pub channel: ChannelView,
    pub client_conn: ConnectionView,
    pub server_conn: ConnectionView,
    pub client_handshake_completed: bool,
    pub server_handshake_completed: bool,
}

impl HarnessView {
    /// Whether the latest negotiation step of `mode` ended in success.
    pub open spec fn completed(self, mode: Mode) -> bool {
        match mode {
            Mode::Client => self.client_handshake_completed,
            Mode::Server => self.server_handshake_completed,
        }
    }

    /// Whether both roles have completed their handshake.
    pub open spec fn handshake_completed(self) -> bool {
        self.client_handshake_completed && self.server_handshake_completed
    }

    /// The connection of `mode`.
    pub open spec fn conn(self, mode: Mode) -> ConnectionView {
        match mode {
            Mode::Client => self.client_conn,
            Mode::Server => self.server_conn,
        }
    }

    /// Whether each role's connection runs on a configuration of its own and
    /// has both its callbacks on its own endpoint of the channel, so that
    /// what one role sends is what the other receives.
    pub open spec fn well_wired(self) -> bool {
        forall|mode: Mode|
            {
                &&& (#[trigger] self.conn(mode)).config is Some
                &&& self.conn(mode) == ConnectionView::wired(
                    mode,
                    mode,
                    self.conn(mode).config->Some_0,
                )
            }
    }

    /// The harness after one negotiation step of `mode`: the role's flag says
    /// whether that step ended in success, and nothing else has changed.
    pub open spec fn step(self, mode: Mode, negotiated: bool) -> HarnessView {
        match mode {
            Mode::Client => HarnessView { client_handshake_completed: negotiated, ..self },
            Mode::Server => HarnessView { server_handshake_completed: negotiated, ..self },
        }
    }
}

/// The harness that construction yields, or the first piece of key material
/// found missing, the client's before the server's. Each connection runs on
/// its role's configuration and does its I/O on its role's endpoint of the
/// channel, and no handshake has been completed.
pub open spec fn construction(
    crypto_config: CryptoConfig,
    handshake_type: HandshakeType,
    channel: ChannelView,
    pems: PemStoreView,
) -> Result<HarnessView, ConstructionError> {
    match client_config(crypto_config, handshake_type, pems) {
        Err(e) => Err(e),
        Ok(client) => match server_config(crypto_config, handshake_type, pems) {
            Err(e) => Err(e),
            Ok(server) => Ok(
                HarnessView {
                    channel,
                    client_conn: ConnectionView::wired(Mode::Client, Mode::Client, client),
                    server_conn: ConnectionView::wired(Mode::Server, Mode::Server, server),
                    client_handshake_completed: false,
                    server_handshake_completed: false,
                },
            ),
        },
    }
}

/// The harness around one client and one server that run on the s2n-tls
/// engine and talk through an in-memory channel.
#[derive(Debug)]
pub struct S2NHarness {
    buffer: ConnectedBuffer,
    client_conn: Connection,
    server_conn: Connection,
    client_handshake_completed: bool,
    server_handshake_completed: bool,
}

impl View for S2NHarness {
    type V = HarnessView;

    closed spec fn view(&self) -> HarnessView {
        HarnessView {
            channel: self.buffer@,
            client_conn: self.client_conn@,
            server_conn: self.server_conn@,
            client_handshake_completed: self.client_handshake_completed,
            server_handshake_completed: self.server_handshake_completed,
        }
    }
}

impl S2NHarness {
    /// The send callback: queues the engine's outgoing bytes on the channel
    /// endpoint of `role` and reports how many were taken, which is all of
    /// them.
    pub fn send_cb(context: &mut ConnectedBuffer, role: Mode, data: &[u8]) -> (code: i32)
        ensures
            final(context)@ == old(context)@.write(role, data@),
            data@.len() <= i32::MAX ==> code == data@.len(),
            code == data@.len() as i32,
    {
        let count = context.write(role, data);
        #[verifier::truncate]
        (count as i32)
    }

    /// The receive callback: hands the engine the oldest bytes waiting on the
    /// channel endpoint of `role`, as many as fit in `data`, and reports
    /// their number. Where nothing can be handed over it reports -1, having
    /// set `errno` to the code for "would block", which the engine takes as
    /// "ask again later" and not as a failure.
    pub fn recv_cb(context: &mut ConnectedBuffer, role: Mode, data: &mut [u8]) -> (code: i32)
        ensures
            final(context)@ == old(context)@.read(role, old(data)@.len()),
            final(data)@ == old(context)@.delivered(role, old(data)@.len()) + old(data)@.skip(
                old(context)@.readable(role, old(data)@.len()) as int,
            ),
            old(context)@.readable(role, old(data)@.len()) == 0 ==> code == -1,
            0 < old(context)@.readable(role, old(data)@.len()) <= i32::MAX ==> code == old(
                context,
            )@.readable(role, old(data)@.len()),
            0 < old(context)@.readable(role, old(data)@.len()) ==> code == old(
                context,
            )@.readable(role, old(data)@.len()) as i32,
    {
        context.flush(role);
        match context.read(role, data) {
            Err(_) => {
                set_errno(would_block_code());
                -1
            },
            Ok(len) => {
                #[verifier::truncate]
                (len as i32)
            },
        }
    }

    /// The part of a configuration that does not depend on the role.
    pub fn create_common_config_builder(
        crypto_config: CryptoConfig,
        handshake_type: HandshakeType,
    ) -> (builder: Builder)
        ensures
            builder@ == common_config(crypto_config, handshake_type),
    {
        let mut builder = Builder::new();
        builder.set_security_policy(
            security_policy(crypto_config.cipher_suite, crypto_config.ec_group),
        );
        builder.wipe_trust_store();
        builder.set_client_auth_type(
            match handshake_type {
                HandshakeType::ServerAuth => ClientAuthType::NoAuth,
                HandshakeType::MutualAuth => ClientAuthType::Required,
            },
        );
        builder
    }

    /// The client's configuration, with the key material taken from `pems`.
    /// Fails on the first piece of material that `pems` does not hold.
    pub fn create_client_config(
        crypto_config: CryptoConfig,
        handshake_type: HandshakeType,
        pems: &PemStore,
    ) -> (result: Result<Config, ConstructionError>)
        ensures
            match result {
                Ok(config) => client_config(crypto_config, handshake_type, pems@) == Ok::<
                    ConfigView,
                    ConstructionError,
                >(config@),
                Err(e) => client_config(crypto_config, handshake_type, pems@) == Err::<
                    ConfigView,
                    ConstructionError,
                >(e),
            },
    {
        let mut builder = Self::create_common_config_builder(crypto_config, handshake_type);
        let ca_cert = match require_pem(pems, PemType::CACert, crypto_config.sig_type) {
            Ok(bytes) => bytes,
            Err(e) => { return Err(e); },
        };
        builder.trust_pem(ca_cert.as_slice());
        builder.set_verify_host_callback(HostNameHandler::new("localhost"));

        if handshake_type == HandshakeType::MutualAuth {
            let chain = match require_pem(pems, PemType::ClientCertChain, crypto_config.sig_type) {
                Ok(bytes) => bytes,
                Err(e) => { return Err(e); },
            };
            let key = match require_pem(pems, PemType::ClientKey, crypto_config.sig_type) {
                Ok(bytes) => bytes,
                Err(e) => { return Err(e); },
            };
            builder.load_pem(chain.as_slice(), key.as_slice());
        }
        let config = builder.build();
        assert(config@.trusted =~= seq![pems@[(PemType::CACert, crypto_config.sig_type)]]);
        assert(config@.cert_chains =~= client_config(
            crypto_config,
            handshake_type,
            pems@,
        )->Ok_0.cert_chains);
        Ok(config)
    }

    /// The server's configuration, with the key material taken from `pems`.
    /// Fails on the first piece of material that `pems` does not hold.
    pub fn create_server_config(
        crypto_config: CryptoConfig,
        handshake_type: HandshakeType,
        pems: &PemStore,
    ) -> (result: Result<Config, ConstructionError>)
        ensures
            match result {
                Ok(config) => server_config(crypto_config, handshake_type, pems@) == Ok::<
                    ConfigView,
                    ConstructionError,
                >(config@),
                Err(e) => server_config(crypto_config, handshake_type, pems@) == Err::<
                    ConfigView,
                    ConstructionError,
                >(e),
            },
    {
        let mut builder = Self::create_common_config_builder(crypto_config, handshake_type);
        let chain = match require_pem(pems, PemType::ServerCertChain, crypto_config.sig_type) {
            Ok(bytes) => bytes,
            Err(e) => { return Err(e); },
        };
        let key = match require_pem(pems, PemType::ServerKey, crypto_config.sig_type) {
            Ok(bytes) => bytes,
            Err(e) => { return Err(e); },
        };
        builder.load_pem(chain.as_slice(), key.as_slice());

        if handshake_type == HandshakeType::MutualAuth {
            let ca_cert = match require_pem(pems, PemType::CACert, crypto_config.sig_type) {
                Ok(bytes) => bytes,
                Err(e) => { return Err(e); },
            };
            builder.trust_pem(ca_cert.as_slice());
            builder.set_verify_host_callback(HostNameHandler::new("localhost"));
        }
        let config = builder.build();
        assert(config@.trusted =~= server_config(
            crypto_config,
            handshake_type,
            pems@,
        )->Ok_0.trusted);
        assert(config@.cert_chains =~= server_config(
            crypto_config,
            handshake_type,
            pems@,
        )->Ok_0.cert_chains);
        Ok(config)
    }

    /// Sets a connection up to run on `config` and to do all its I/O through
    /// the callbacks, on the channel endpoint `endpoint`.
    pub fn init_conn(conn: &mut Connection, endpoint: Mode, config: Config)
        ensures
            final(conn)@ == ConnectionView::wired(old(conn)@.mode, endpoint, config@),
    {
        conn.set_blinding(Blinding::SelfService);
        conn.set_config(config);
        conn.set_send_callback(endpoint);
        conn.set_receive_callback(endpoint);
    }

    /// Records one negotiation step of `mode`, of which `outcome` is what the
    /// engine reported. The role's flag is set when the step completed the
    /// handshake and cleared when it did not; only a step on which the engine
    /// gave up is an error.
    pub fn handshake_conn(&mut self, mode: Mode, outcome: PollOutcome) -> (result: Result<
        (),
        HandshakeError,
    >)
        ensures
            final(self)@ == old(self)@.step(mode, outcome is Negotiated),
            match outcome {
                PollOutcome::Failed(reason) => result matches Err(e) && e.mode == mode
                    && e.reason@ == reason@,
                _ => result is Ok,
            },
    {
        let (negotiated, result) = match outcome {
            PollOutcome::Negotiated => (true, Ok(())),
            PollOutcome::Pending => (false, Ok(())),
            PollOutcome::Failed(reason) => (false, Err(HandshakeError { mode, reason })),
        };
        match mode {
            Mode::Client => { self.client_handshake_completed = negotiated; },
            Mode::Server => { self.server_handshake_completed = negotiated; },
        }
        result
    }

    /// Builds the harness: both roles' configurations from `crypto_config`,
    /// `handshake_type` and the key material in `pems`, and both connections,
    /// each wired to its own endpoint of `buffer`. Fails on the first piece
    /// of key material that `pems` does not hold.
    pub fn new(
        crypto_config: CryptoConfig,
        handshake_type: HandshakeType,
        buffer: ConnectedBuffer,
        pems: &PemStore,
    ) -> (result: Result<Self, ConstructionError>)
        ensures
            match result {
                Ok(harness) => construction(crypto_config, handshake_type, buffer@, pems@) == Ok::<
                    HarnessView,
                    ConstructionError,
                >(harness@),
                Err(e) => construction(crypto_config, handshake_type, buffer@, pems@) == Err::<
                    HarnessView,
                    ConstructionError,
                >(e),
            },
    {
        let client_config = match Self::create_client_config(crypto_config, handshake_type, pems) {
            Ok(config) => config,
            Err(e) => { return Err(e); },
        };
        let server_config = match Self::create_server_config(crypto_config, handshake_type, pems) {
            Ok(config) => config,
            Err(e) => { return Err(e); },
        };

        let mut client_conn = Connection::new_client();
        let mut server_conn = Connection::new_server();

        Self::init_conn(&mut client_conn, Mode::Client, client_config);
        Self::init_conn(&mut server_conn, Mode::Server, server_config);

        let harness = S2NHarness {
            buffer,
            client_conn,
            server_conn,
            client_handshake_completed: false,
            server_handshake_completed: false,
        };

        Ok(harness)
    }

    /// Takes one step of a driving cycle: records `outcome` as what the role
    /// that `cycle` says is due has reported, and moves the cycle on. A step
    /// on which the engine gave up ends the cycle. On a cycle that is over
    /// nothing happens.
    pub fn handshake(&mut self, cycle: &mut HandshakeCycle, outcome: PollOutcome) -> (result:
        Result<(), HandshakeError>)
        ensures
            match old(cycle).next_role() {
                Some(mode) => {
                    &&& final(self)@ == old(self)@.step(mode, outcome is Negotiated)
                    &&& match outcome {
                        PollOutcome::Failed(reason) => {
                            &&& result matches Err(e) && e.mode == mode && e.reason@ == reason@
                            &&& final(cycle).position() == schedule().len()
                        },
                        _ => result is Ok && final(cycle).position() == old(cycle).position() + 1,
                    }
                },
                None => {
                    &&& final(self)@ == old(self)@
                    &&& final(cycle).position() == old(cycle).position()
                    &&& result is Ok
                },
            },
    {
        match cycle.next_role() {
            Some(mode) => {
                let result = self.handshake_conn(mode, outcome);
                if result.is_ok() {
                    cycle.position = cycle.position + 1;
                } else {
                    cycle.position = STEPS_PER_CYCLE;
                }
                result
            },
            None => Ok(()),
        }
    }

    /// Whether both roles have completed their handshake.
    pub fn handshake_completed(&self) -> (completed: bool)
        ensures
            completed == self@.handshake_completed(),
    {
        self.client_handshake_completed && self.server_handshake_completed
    }

    /// The cipher suite the handshake settled on, from the name the client's
    /// engine reports it under.
    pub fn get_negotiated_cipher_suite(&self, name: &str) -> (result: Result<
        CipherSuite,
        UnrecognizedNegotiatedValue,
    >)
        requires
            self@.handshake_completed(),
        ensures
            match result {
                Ok(cipher_suite) => recognized_cipher_suite(name@) == Some(cipher_suite),
                Err(_) => recognized_cipher_suite(name@) is None,
            },
    {
        if same_text(name, "TLS_AES_128_GCM_SHA256") {
            Ok(CipherSuite::AES_128_GCM_SHA256)
        } else if same_text(name, "TLS_AES_256_GCM_SHA384") {
            Ok(CipherSuite::AES_256_GCM_SHA384)
        } else {
            Err(UnrecognizedNegotiatedValue)
        }
    }

    /// Whether the handshake settled on TLS 1.3, from the version the
    /// client's engine reports.
    pub fn negotiated_tls13(&self, version: Version) -> (tls13: bool)
        requires
            self@.handshake_completed(),
        ensures
            tls13 <==> version == Version::TLS13,
    {
        version == Version::TLS13
    }

    /// Judges a send on the connection of `sender`, of which the engine
    /// reported whether the write and the flush each finished at once. Both
    /// have to; the first that did not is the error.
    pub fn send(&self, sender: Mode, write_ready: bool, flush_ready: bool) -> (result: Result<
        (),
        TransferError,
    >)
        ensures
            result == if !write_ready {
                Err::<(), TransferError>(TransferError { mode: sender, op: TransferOp::Send })
            } else if !flush_ready {
                Err::<(), TransferError>(TransferError { mode: sender, op: TransferOp::Flush })
            } else {
                Ok::<(), TransferError>(())
            },
    {
        if !write_ready {
            Err(TransferError { mode: sender, op: TransferOp::Send })
        } else if !flush_ready {
            Err(TransferError { mode: sender, op: TransferOp::Flush })
        } else {
            Ok(())
        }
    }

    /// Judges a receive on the connection of `receiver`, of which the engine
    /// reported whether the read finished at once. It has to.
    pub fn recv(&self, receiver: Mode, read_ready: bool) -> (result: Result<(), TransferError>)
        ensures
            result == if read_ready {
                Ok::<(), TransferError>(())
            } else {
                Err::<(), TransferError>(TransferError { mode: receiver, op: TransferOp::Recv })
            },
    {
        if read_ready {
            Ok(())
        } else {
            Err(TransferError { mode: receiver, op: TransferOp::Recv })
        }
    }

    /// The channel, to look at.
    pub fn buffer(&self) -> (buffer: &ConnectedBuffer)
        ensures
            buffer@ == self@.channel,
    {
        &self.buffer
    }

    /// The channel, for the I/O callbacks to work on.
    pub fn buffer_mut(&mut self) -> (buffer: &mut ConnectedBuffer)
        ensures
            buffer@ == old(self)@.channel,
            final(self)@ == (HarnessView { channel: final(buffer)@, ..old(self)@ }),
    {
        &mut self.buffer
    }

    /// How the connection of `mode` is set up.
    pub fn conn(&self, mode: Mode) -> (conn: &Connection)
        ensures
            conn@ == self@.conn(mode),
    {
        match mode {
            Mode::Client => &self.client_conn,
            Mode::Server => &self.server_conn,
        }
    }
}

impl HarnessView {
    /// The harness after a history of negotiation steps, earliest first; each
    /// step names the role that was polled and says whether the poll
    /// completed the handshake.
    pub open spec fn run(self, steps: Seq<(Mode, bool)>) -> HarnessView
        decreases steps.len(),
    {
        if steps.len() == 0 {
            self
        } else {
            self.run(steps.drop_last()).step(steps.last().0, steps.last().1)
        }
    }
}

/// Whether the latest step of `mode` in `steps` completed the handshake;
/// `None` if `mode` was not polled at all.
pub open spec fn latest_outcome(steps: Seq<(Mode, bool)>, mode: Mode) -> Option<bool>
    decreases steps.len(),
{
    if steps.len() == 0 {
        None
    } else if steps.last().0 == mode {
        Some(steps.last().1)
    } else {
        latest_outcome(steps.drop_last(), mode)
    }
}

/// The steps of one whole driving cycle in which the four polls, in the order
/// of the schedule, had the outcomes `outcomes`.
pub open spec fn cycle_steps(outcomes: Seq<bool>) -> Seq<(Mode, bool)> {
    Seq::new(schedule().len(), |i: int| (schedule()[i], outcomes[i]))
}

/// A role's flag is set exactly when the latest negotiation step of that
/// role ended in success. Steps of the other role do not touch it, and no
/// step touches the channel or the connections.
pub proof fn lemma_flag_tracks_latest_step(
    harness: HarnessView,
    steps: Seq<(Mode, bool)>,
    mode: Mode,
)
    ensures
        harness.run(steps).completed(mode) == match latest_outcome(steps, mode) {
            Some(negotiated) => negotiated,
            None => harness.completed(mode),
        },
        harness.run(steps).channel == harness.channel,
        harness.run(steps).client_conn == harness.client_conn,
        harness.run(steps).server_conn == harness.server_conn,
    decreases steps.len(),
{
    if steps.len() > 0 {
        lemma_flag_tracks_latest_step(harness, steps.drop_last(), mode);
    }
}

/// After one whole driving cycle the handshake counts as completed exactly
/// when the last poll of the client and the last poll of the server both
/// ended in success, whatever the flags were before and whatever the earlier
/// polls reported.
pub proof fn lemma_cycle_completes(harness: HarnessView, outcomes: Seq<bool>)
    requires
        outcomes.len() == schedule().len(),
    ensures
        harness.run(cycle_steps(outcomes)).handshake_completed() == (outcomes[outcomes.len() - 2]
            && outcomes[outcomes.len() - 1]),
{
    let steps = cycle_steps(outcomes);
    let last = outcomes.len() - 1;
    lemma_flag_tracks_latest_step(harness, steps, Mode::Client);
    lemma_flag_tracks_latest_step(harness, steps, Mode::Server);
    assert(steps.last() == (Mode::Server, outcomes[last]));
    assert(steps.drop_last().last() == (Mode::Client, outcomes[last - 1]));
    assert(latest_outcome(steps, Mode::Server) == Some(outcomes[last]));
    assert(latest_outcome(steps.drop_last(), Mode::Client) == Some(outcomes[last - 1]));
}

/// Whether `pems` holds every piece of key material that the two roles'
/// configurations call for.
pub open spec fn material_complete(
    crypto_config: CryptoConfig,
    handshake_type: HandshakeType,
    pems: PemStoreView,
) -> bool {
    let sig = crypto_config.sig_type;
    &&& pems.contains_key((PemType::CACert, sig))
    &&& pems.contains_key((PemType::ServerCertChain, sig))
    &&& pems.contains_key((PemType::ServerKey, sig))
    &&& handshake_type == HandshakeType::MutualAuth ==> {
        &&& pems.contains_key((PemType::ClientCertChain, sig))
        &&& pems.contains_key((PemType::ClientKey, sig))
    }
}

/// For every cipher suite, group and kind of handshake, construction
/// succeeds exactly when the key material is complete.
pub proof fn lemma_construction_succeeds(
    crypto_config: CryptoConfig,
    handshake_type: HandshakeType,
    channel: ChannelView,
    pems: PemStoreView,
)
    ensures
        construction(crypto_config, handshake_type, channel, pems) is Ok <==> material_complete(
            crypto_config,
            handshake_type,
            pems,
        ),
{
}

/// A harness that could be built is well wired, and no negotiation step
/// changes that.
pub proof fn lemma_harness_stays_well_wired(
    crypto_config: CryptoConfig,
    handshake_type: HandshakeType,
    channel: ChannelView,
    pems: PemStoreView,
    steps: Seq<(Mode, bool)>,
)
    requires
        construction(crypto_config, handshake_type, channel, pems) is Ok,
    ensures
        construction(crypto_config, handshake_type, channel, pems)->Ok_0.run(steps).well_wired(),
{
    let harness = construction(crypto_config, handshake_type, channel, pems)->Ok_0;
    lemma_flag_tracks_latest_step(harness, steps, Mode::Client);
    assert(harness.conn(Mode::Client).config is Some);
    assert(harness.conn(Mode::Server).config is Some);
}

/// Where the client's certificate chain or its key is not loaded, a harness
/// in which both sides authenticate cannot be built, although one in which
/// only the server authenticates may well be; and wherever the latter can be
/// built, the error of the former names the client's material that is
/// missing.
pub proof fn lemma_mutual_auth_needs_client_identity(
    crypto_config: CryptoConfig,
    channel: ChannelView,
    pems: PemStoreView,
)
    requires
        !pems.contains_key((PemType::ClientCertChain, crypto_config.sig_type))
            || !pems.contains_key((PemType::ClientKey, crypto_config.sig_type)),
    ensures
        construction(crypto_config, HandshakeType::MutualAuth, channel, pems) is Err,
        construction(crypto_config, HandshakeType::ServerAuth, channel, pems) is Ok
            <==> material_complete(crypto_config, HandshakeType::ServerAuth, pems),
        construction(crypto_config, HandshakeType::ServerAuth, channel, pems) is Ok ==> {
            let e = construction(crypto_config, HandshakeType::MutualAuth, channel, pems)->Err_0;
            ||| e == missing(PemType::ClientCertChain, crypto_config.sig_type)
            ||| e == missing(PemType::ClientKey, crypto_config.sig_type)
        },
{
}

/// Every cipher suite that can be configured is recognized under the name
/// the engine reports it by, and as itself.
pub proof fn lemma_configured_suites_are_recognized(cipher_suite: CipherSuite)
    ensures
        recognized_cipher_suite(cipher_suite_name(cipher_suite)) == Some(cipher_suite),
{
    reveal_strlit("TLS_AES_128_GCM_SHA256");
    reveal_strlit("TLS_AES_256_GCM_SHA384");
    assert("TLS_AES_128_GCM_SHA256"@[8] != "TLS_AES_256_GCM_SHA384"@[8]);
}

/// No two combinations of cipher suite and group share a security policy.
pub proof fn lemma_security_policies_differ(
    first: (CipherSuite, ECGroup),
    second: (CipherSuite, ECGroup),
)
    ensures
        security_policy_name(first.0, first.1) == security_policy_name(second.0, second.1)
            ==> first == second,
{
    reveal_strlit("20230317");
    reveal_strlit("20190802");
    reveal_strlit("default_tls13");
    reveal_strlit("20190801");
    assert("20230317"@[7] == '7');
    assert("20190802"@[7] == '2');
    assert("20190801"@[7] == '1');
    assert("default_tls13"@.len() == 13);
    assert("20230317"@.len() == 8);
}

} // verus!
