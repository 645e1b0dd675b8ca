//! The boundary to the operating system.
//!
//! Every raw system call the library issues goes through the [`Syscalls`]
//! trait. Each method returns the call's own return value *paired with the
//! platform error code captured immediately after the call* — never read
//! later through a separate global inspection, which could observe a code
//! overwritten by an intervening operation. The trait promises nothing
//! about outcomes: the verified logic above it is proved for every value an
//! implementation can hand back. An implementation with real `libc` calls
//! lives outside the verified library; tests drive the logic with doubles.

use vstd::prelude::*;

use crate::addr::SocketAddress;

verus! {

/// The platform error code for a system call interrupted by signal
/// delivery (`EINTR`), as libc defines it on Linux.
pub const EINTR_VALUE: i32 = 4;

/// Relies on `libc::EINTR`: the "interrupted system call" error code,
/// which libc defines as 4 on Linux.
#[verifier::external_body]
fn eintr() -> (r: i32)
    ensures
        r == EINTR_VALUE,
{
    libc::EINTR
}

/// Whether one syscall outcome — return value plus the error code captured
/// beside it — means "failed only because a signal interrupted it".
pub open spec fn spec_interrupted(ret: i32, err: i32) -> bool {
    ret == -1 && err == EINTR_VALUE
}

/// Decides whether a system call must be reissued: exactly when it
/// returned the failure sentinel and the error code captured beside it
/// reports interruption by a signal. Any other outcome — success or a
/// different error — passes through unchanged. Interruption is transient,
/// so it is retried unconditionally, with no backoff and no bound.
pub fn should_retry(ret: i32, err: i32) -> (r: bool)
    ensures
        r == spec_interrupted(ret, err),
{
    ret == -1 && err == eintr()
}

/// The raw system calls the library composes. Each method performs one
/// blocking call and returns `(ret, err)`: the call's return value and the
/// platform error code captured immediately after it.
///
/// Nothing is assumed about the *outcomes* an implementation hands back —
/// the logic built on top is verified for every value of them — with one
/// ghost exception. Signal interruption is transient: no call site sees an
/// infinite run of interrupted outcomes. That assumption is what makes the
/// unconditional, unbounded retry of the design meaningful, and it is
/// recorded here as a ghost measure, [`Syscalls::interruption_budget`],
/// that every interrupted outcome of a retried call strictly shrinks. The
/// measure exists only in specifications; implementations define no code
/// for it, and nothing else is promised of them.
pub trait Syscalls {
    /// Ghost measure of interruption transience: an upper bound on how
    /// many more interrupted outcomes this implementation can report in a
    /// row. It underwrites termination of the retry loops and nothing
    /// else. The default leaves no budget at all; implementations outside
    /// the verified world never mention it.
    open spec fn interruption_budget(&self) -> nat {
        0
    }

    /// Opens a raw socket; `ret` is the new handle, or -1 on failure.
    fn socket(&mut self, family: u16, ty: i32, protocol: i32) -> (r: (i32, i32));

    /// Connects `fd` to the encoded address; `ret` is 0, or -1 on failure.
    fn connect(&mut self, fd: i32, addr: &SocketAddress) -> (r: (i32, i32))
        ensures
            spec_interrupted(r.0, r.1) ==> final(self).interruption_budget() < old(
                self,
            ).interruption_budget(),
    ;

    /// Binds `fd` at the encoded address; `ret` is 0, or -1 on failure.
    fn bind(&mut self, fd: i32, addr: &SocketAddress) -> (r: (i32, i32));

    /// Releases the handle `fd`; `ret` is 0, or -1 on failure.
    fn close(&mut self, fd: i32) -> (r: (i32, i32));

    /// Receives from the implicit peer into `buf` (up to `buf`'s length);
    /// `ret` is the byte count, or negative on failure.
    fn recv(&mut self, fd: i32, buf: &mut Vec<u8>) -> (r: (i32, i32))
        ensures
            spec_interrupted(r.0, r.1) ==> final(self).interruption_budget() < old(
                self,
            ).interruption_budget(),
    ;

    /// Receives from any sender into `buf` (up to `buf`'s length); `ret`
    /// is the byte count, or negative on failure.
    fn recvfrom(&mut self, fd: i32, buf: &mut Vec<u8>) -> (r: (i32, i32))
        ensures
            spec_interrupted(r.0, r.1) ==> final(self).interruption_budget() < old(
                self,
            ).interruption_budget(),
    ;

    /// Sends `buf` to the implicit peer; `ret` is the count of bytes the
    /// transport accepted, or -1 on failure.
    fn send(&mut self, fd: i32, buf: &[u8]) -> (r: (i32, i32))
        ensures
            spec_interrupted(r.0, r.1) ==> final(self).interruption_budget() < old(
                self,
            ).interruption_budget(),
    ;

    /// Sends `buf` to the encoded destination address; `ret` is the count
    /// of bytes the transport accepted, or -1 on failure.
    fn sendto(&mut self, fd: i32, buf: &[u8], dst: &SocketAddress) -> (r: (i32, i32))
        ensures
            spec_interrupted(r.0, r.1) ==> final(self).interruption_budget() < old(
                self,
            ).interruption_budget(),
    ;
}

} // verus!
