//! The thread's `errno`, through which an I/O callback tells the engine that
//! a read found nothing and should be tried again. Nothing in this file is
//! proved: both functions are taken on trust.

use vstd::prelude::*;

verus! {

/// The error code that means "no data yet, try again" on this platform:
/// `libc::EWOULDBLOCK`. Its value differs from platform to platform, so
/// nothing is claimed of it.
#[verifier::external_body]
pub(crate) fn would_block_code() -> (code: i32) {
    libc::EWOULDBLOCK
}

/// Stores `code` in the calling thread's `errno`, by `errno::set_errno`. The
/// effect is outside what this crate's contracts can speak of, so nothing is
/// claimed here either.
#[verifier::external_body]
pub(crate) fn set_errno(code: i32) {
    errno::set_errno(errno::Errno(code))
}

} // verus!
