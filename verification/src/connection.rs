//! One role's connection as the harness sees it: how the engine's connection
//! object is to be wired, and what the engine reports back when it is asked
//! to make progress.

use crate::config::{Config, ConfigView};
use crate::harness::Mode;
use vstd::prelude::*;

verus! {

/// Who delays the answer to a failed handshake or a bad record.
#[derive(Clone, Copy, Debug, PartialEq, Eq, Structural)]
pub enum Blinding {
    /// The engine sleeps by itself.
    BuiltIn,
    /// The engine leaves the delay to its caller.
    SelfService,
}

/// The protocol version a connection ended up with.
#[derive(Clone, Copy, Debug, PartialEq, Eq, Structural)]
pub enum Version {
    SSLV2,
    SSLV3,
    TLS10,
    TLS11,
    TLS12,
    TLS13,
}

/// What one poll of a role's negotiation reports.
#[derive(Clone, Debug)]
pub enum PollOutcome {
    /// The role is still exchanging flights with its peer.
    Pending,
    /// The role's handshake is complete.
    Negotiated,
    /// The engine gave the handshake up, for the reason it states.
    Failed(String),
}

/// A connection's wiring as mathematics.
pub struct ConnectionView {
    pub mode: Mode,
    pub blinding: Blinding,
    /// The configuration in use, once one is set.
    pub config: Option<ConfigView>,
    /// The channel endpoint the send callback writes to, once it is registered.
    pub send_endpoint: Option<Mode>,
    /// The channel endpoint the receive callback reads from, once it is
    /// registered.
    pub receive_endpoint: Option<Mode>,
}

impl ConnectionView {
    /// A connection of the given role on which nothing has been set.
    pub open spec fn initial(mode: Mode) -> ConnectionView {
        ConnectionView {
            mode,
            blinding: Blinding::BuiltIn,
            config: None,
            send_endpoint: None,
            receive_endpoint: None,
        }
    }

    /// A connection of the given role, set up to run on `config` and to do
    /// all its I/O on the channel endpoint `endpoint`.
    pub open spec fn wired(mode: Mode, endpoint: Mode, config: ConfigView) -> ConnectionView {
        ConnectionView {
            mode,
            blinding: Blinding::SelfService,
            config: Some(config),
            send_endpoint: Some(endpoint),
            receive_endpoint: Some(endpoint),
        }
    }
}

/// How one role's connection is to be set up.
#[derive(Clone, Debug)]
pub struct Connection {
    mode: Mode,
    blinding: Blinding,
    config: Option<Config>,
    send_endpoint: Option<Mode>,
    receive_endpoint: Option<Mode>,
}

impl View for Connection {
    type V = ConnectionView;

    closed spec fn view(&self) -> ConnectionView {
        ConnectionView {
            mode: self.mode,
            blinding: self.blinding,
            config: match self.config {
                Some(config) => Some(config@),
                None => None,
            },
            send_endpoint: self.send_endpoint,
            receive_endpoint: self.receive_endpoint,
        }
    }
}

impl Connection {
    /// A connection of the given role on which nothing has been set.
    pub fn new(mode: Mode) -> (conn: Self)
        ensures
            conn@ == ConnectionView::initial(mode),
    {
        Connection {
            mode,
            blinding: Blinding::BuiltIn,
            config: None,
            send_endpoint: None,
            receive_endpoint: None,
        }
    }

    /// A client's connection on which nothing has been set.
    pub fn new_client() -> (conn: Self)
        ensures
            conn@ == ConnectionView::initial(Mode::Client),
    {
        Connection::new(Mode::Client)
    }

    /// A server's connection on which nothing has been set.
    pub fn new_server() -> (conn: Self)
        ensures
            conn@ == ConnectionView::initial(Mode::Server),
    {
        Connection::new(Mode::Server)
    }

    /// Says who delays the answer to a failure.
    pub fn set_blinding(&mut self, blinding: Blinding)
        ensures
            final(self)@ == (ConnectionView { blinding, ..old(self)@ }),
    {
        self.blinding = blinding;
    }

    /// Puts the connection on `config`.
    pub fn set_config(&mut self, config: Config)
        ensures
            final(self)@ == (ConnectionView { config: Some(config@), ..old(self)@ }),
    {
        self.config = Some(config);
    }

    /// Registers the send callback, with the channel endpoint `endpoint` as
    /// the context it is handed.
    pub fn set_send_callback(&mut self, endpoint: Mode)
        ensures
            final(self)@ == (ConnectionView { send_endpoint: Some(endpoint), ..old(self)@ }),
    {
        self.send_endpoint = Some(endpoint);
    }

    /// Registers the receive callback, with the channel endpoint `endpoint`
    /// as the context it is handed.
    pub fn set_receive_callback(&mut self, endpoint: Mode)
        ensures
            final(self)@ == (ConnectionView { receive_endpoint: Some(endpoint), ..old(self)@ }),
    {
        self.receive_endpoint = Some(endpoint);
    }

    /// The role this connection plays.
    pub fn mode(&self) -> (mode: Mode)
        ensures
            mode == self@.mode,
    {
        self.mode
    }

    /// Who delays the answer to a failure.
    pub fn blinding(&self) -> (blinding: Blinding)
        ensures
            blinding == self@.blinding,
    {
        self.blinding
    }

    /// The configuration in use, once one is set.
    pub fn config(&self) -> (config: &Option<Config>)
        ensures
            match config {
                Some(config) => self@.config == Some(config@),
                None => self@.config is None,
            },
    {
        &self.config
    }

    /// The channel endpoint the send callback writes to, once it is
    /// registered.
    pub fn send_endpoint(&self) -> (endpoint: Option<Mode>)
        ensures
            endpoint == self@.send_endpoint,
    {
        self.send_endpoint
    }

    /// The channel endpoint the receive callback reads from, once it is
    /// registered.
    pub fn receive_endpoint(&self) -> (endpoint: Option<Mode>)
        ensures
            endpoint == self@.receive_endpoint,
    {
        self.receive_endpoint
    }
}

} // verus!
