//! What can go wrong around the engine, as far as the harness itself can
//! tell.

use crate::harness::{Mode, PemType, SigType};
use vstd::prelude::*;

verus! {

/// Why a harness could not be built.
#[derive(Clone, Copy, Debug, PartialEq, Eq, Structural)]
pub enum ConstructionError {
    /// A piece of key material that the configuration calls for is not in
    /// the store.
    MissingPem { pem_type: PemType, sig_type: SigType },
}

/// Why a handshake step failed: the engine of `mode` gave up, for the reason
/// it stated.
#[derive(Clone, Debug)]
pub struct HandshakeError {
    pub mode: Mode,
    pub reason: String,
}

/// The engine reported what was negotiated under a name the harness does not
/// know: the two do not fit together.
#[derive(Clone, Copy, Debug, PartialEq, Eq, Structural)]
pub struct UnrecognizedNegotiatedValue;

/// The operations an exchange of application data is made of.
#[derive(Clone, Copy, Debug, PartialEq, Eq, Structural)]
pub enum TransferOp {
    Send,
    Flush,
    Recv,
}

/// An operation on the connection of `mode` did not finish at once, as every
/// operation after the handshake is expected to.
#[derive(Clone, Copy, Debug, PartialEq, Eq, Structural)]
pub struct TransferError {
    pub mode: Mode,
    pub op: TransferOp,
}

} // verus!
