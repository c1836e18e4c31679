//! A benchmarking harness that drives a TLS engine over an in-memory duplex
//! channel instead of a socket, so that a measurement reflects the cost of the
//! protocol and of its cryptography and nothing of the network.
//!
//! The engine itself stays outside: this crate holds everything around it that
//! can be decided without it. It describes the configuration each role is to
//! be given, owns the byte queues the two roles talk through, turns a
//! read or write on them into the return convention of the engine's I/O
//! callbacks, and keeps the record of how far each role's handshake has come
//! from the outcome of every negotiation step.

pub mod buffer;
pub mod config;
pub mod connection;
pub mod error;
pub mod harness;
pub mod pem;
pub mod s2n_tls;
mod sys;

pub use buffer::{ChannelView, ConnectedBuffer, WouldBlock};
pub use config::{Builder, CertKeyPair, ClientAuthType, Config, ConfigView, HostNameHandler};
pub use connection::{Blinding, Connection, ConnectionView, PollOutcome, Version};
pub use harness::{CipherSuite, CryptoConfig, ECGroup, HandshakeType, Mode, PemType, SigType};
pub use pem::{PemStore, PemStoreView};
pub use error::{
    ConstructionError, HandshakeError, TransferError, TransferOp, UnrecognizedNegotiatedValue,
};
pub use s2n_tls::{HandshakeCycle, HarnessView, S2NHarness, ROUNDS_PER_CYCLE, STEPS_PER_CYCLE};
