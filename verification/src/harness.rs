//! The vocabulary shared by every harness: what is to be negotiated, how the
//! two sides authenticate, and which side an operation is aimed at.

use vstd::prelude::*;

verus! {

/// The record-protection suite a benchmark asks the two roles to agree on.
#[allow(non_camel_case_types)]
#[derive(Clone, Copy, Debug, PartialEq, Eq, Structural)]
pub enum CipherSuite {
    AES_128_GCM_SHA256,
    AES_256_GCM_SHA384,
}

/// The elliptic-curve group of the key exchange.
#[derive(Clone, Copy, Debug, PartialEq, Eq, Structural)]
pub enum ECGroup {
    SECP256R1,
    X25519,
}

/// The signature algorithm of the certificates the roles present.
#[derive(Clone, Copy, Debug, PartialEq, Eq, Structural)]
pub enum SigType {
    Rsa2048,
    Rsa3072,
    Rsa4096,
    Ecdsa256,
    Ecdsa384,
}

/// Whether only the server proves its identity, or the client does too.
#[derive(Clone, Copy, Debug, PartialEq, Eq, Structural)]
pub enum HandshakeType {
    ServerAuth,
    MutualAuth,
}

/// One of the two sides of the simulated connection.
#[derive(Clone, Copy, Debug, PartialEq, Eq, Structural)]
pub enum Mode {
    Client,
    Server,
}

/// The kinds of encoded key material a configuration may call for.
#[derive(Clone, Copy, Debug, PartialEq, Eq, Structural)]
pub enum PemType {
    ServerKey,
    ServerCertChain,
    ClientKey,
    ClientCertChain,
    CACert,
}

/// The cryptographic parameters of one benchmark run.
#[derive(Clone, Copy, Debug, PartialEq, Eq, Structural)]
pub struct CryptoConfig {
    pub cipher_suite: CipherSuite,
    pub ec_group: ECGroup,
    pub sig_type: SigType,
}

impl Mode {
    /// The other side.
    pub open spec fn spec_inverse(self) -> Mode {
        match self {
            Mode::Client => Mode::Server,
            Mode::Server => Mode::Client,
        }
    }

    /// The other side.
    #[verifier::when_used_as_spec(spec_inverse)]
    pub fn inverse(self) -> (peer: Mode)
        ensures
            peer == self.spec_inverse(),
    {
        match self {
            Mode::Client => Mode::Server,
            Mode::Server => Mode::Client,
        }
    }
}

impl CryptoConfig {
    pub fn new(cipher_suite: CipherSuite, ec_group: ECGroup, sig_type: SigType) -> (config: Self)
        ensures
            config == (CryptoConfig { cipher_suite, ec_group, sig_type }),
    {
        CryptoConfig { cipher_suite, ec_group, sig_type }
    }
}

/// Taking the other side twice leads back.
pub proof fn lemma_inverse_is_involution(mode: Mode)
    ensures
        mode.inverse().inverse() == mode,
        mode.inverse() != mode,
{
}

} // verus!
