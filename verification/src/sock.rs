//! Endpoints: creating a raw socket handle, connecting or binding it at a
//! path, and the mode-gated I/O operations of the resulting
//! [`UnixDatagram`].
//!
//! An endpoint is **Connected** (made by [`UnixDatagram::connect`], with an
//! implicit peer fixed for life) or **Bound** (made by
//! [`UnixDatagram::bind`], with no implicit peer); the flag never
//! transitions afterward. `recv`/`send` are legal only when Connected;
//! `recvfrom`/`sendto` are legal in either state.

use vstd::prelude::*;

use crate::addr::{af_unix, has_nul, SocketAddress, SUN_PATH_CAPACITY};
use crate::errors::{last_error, SockError};
use crate::sys::{should_retry, spec_interrupted, Syscalls};

verus! {

/// The transport modes a Unix-domain endpoint can use.
#[derive(Clone, Copy, Debug, PartialEq, Eq, Structural)]
pub enum SockType {
    /// Ordered byte stream.
    Stream,
    /// Unordered, message-oriented.
    Dgram,
    /// Ordered, message-oriented with boundaries.
    Seqpacket,
}

/// Platform value of the stream socket type constant on Linux.
pub const SOCK_STREAM_VALUE: i32 = 1;

/// Platform value of the datagram socket type constant on Linux.
pub const SOCK_DGRAM_VALUE: i32 = 2;

/// Platform value of the sequenced-packet socket type constant on Linux.
pub const SOCK_SEQPACKET_VALUE: i32 = 5;

/// Relies on `libc::SOCK_STREAM`: defined as 1 on Linux.
#[verifier::external_body]
fn sock_stream() -> (r: i32)
    ensures
        r == SOCK_STREAM_VALUE,
{
    libc::SOCK_STREAM
}

/// Relies on `libc::SOCK_DGRAM`: defined as 2 on Linux.
#[verifier::external_body]
fn sock_dgram() -> (r: i32)
    ensures
        r == SOCK_DGRAM_VALUE,
{
    libc::SOCK_DGRAM
}

/// Relies on `libc::SOCK_SEQPACKET`: defined as 5 on Linux.
#[verifier::external_body]
fn sock_seqpacket() -> (r: i32)
    ensures
        r == SOCK_SEQPACKET_VALUE,
{
    libc::SOCK_SEQPACKET
}

impl SockType {
    /// The platform type constant this transport mode maps to.
    pub open spec fn spec_raw(&self) -> i32 {
        match self {
            SockType::Stream => SOCK_STREAM_VALUE,
            SockType::Dgram => SOCK_DGRAM_VALUE,
            SockType::Seqpacket => SOCK_SEQPACKET_VALUE,
        }
    }

    /// Maps this transport mode to the platform's socket type constant.
    pub fn raw(&self) -> (r: i32)
        ensures
            r == self.spec_raw(),
    {
        match self {
            SockType::Stream => sock_stream(),
            SockType::Dgram => sock_dgram(),
            SockType::Seqpacket => sock_seqpacket(),
        }
    }
}

/// Opens a raw Unix-domain socket of the given platform type; a failure
/// sentinel maps to the platform error captured beside the call.
fn unix_socket<S: Syscalls>(sys: &mut S, ty: i32) -> (r: Result<i32, SockError>)
    ensures
        r matches Err(e) ==> e matches SockError::Os(_),
{
    let family: u16 = af_unix();
    let out = sys.socket(family, ty, 0);
    if out.0 == -1 {
        Err(last_error(out.1))
    } else {
        Ok(out.0)
    }
}

/// Opens a handle and issues the connect system call, retrying it while it
/// fails solely from signal interruption. On a failed connect the handle
/// opened earlier is closed before the error propagates, so no descriptor
/// leaks out of a failed construction.
fn connect_fd<S: Syscalls>(sys: &mut S, addr: &SocketAddress, ty: i32) -> (r: Result<
    i32,
    SockError,
>)
    ensures
        r matches Err(e) ==> e matches SockError::Os(_),
{
    let fd = match unix_socket(sys, ty) {
        Ok(fd) => fd,
        Err(e) => { return Err(e) },
    };
    let mut out: (i32, i32) = (-1, 0);
    loop
        ensures
            !spec_interrupted(out.0, out.1),
        decreases sys.interruption_budget(),
    {
        out = sys.connect(fd, addr);
        if !should_retry(out.0, out.1) {
            break;
        }
    }
    if out.0 == -1 {
        let e = last_error(out.1);
        let _ = sys.close(fd);
        Err(e)
    } else {
        Ok(fd)
    }
}

/// Opens a handle and issues a single, non-retried bind system call (bind
/// does not fail on interruption in practice). On a failed bind the handle
/// opened earlier is closed before the error propagates.
fn bind_fd<S: Syscalls>(sys: &mut S, addr: &SocketAddress, ty: i32) -> (r: Result<i32, SockError>)
    ensures
        r matches Err(e) ==> e matches SockError::Os(_),
{
    let fd = match unix_socket(sys, ty) {
        Ok(fd) => fd,
        Err(e) => { return Err(e) },
    };
    let out = sys.bind(fd, addr);
    if out.0 == -1 {
        let e = last_error(out.1);
        let _ = sys.close(fd);
        Err(e)
    } else {
        Ok(fd)
    }
}

/// What a completed receive outcome means, for every value the OS layer
/// can hand back: a negative return maps to the platform error captured
/// beside it, and a non-negative return is the count of bytes placed in
/// the caller's buffer.
pub fn interpret_recv(ret: i32, err: i32) -> (r: Result<usize, SockError>)
    ensures
        ret < 0 ==> r == Err::<usize, SockError>(SockError::Os(err)),
        ret >= 0 ==> r == Ok::<usize, SockError>(ret as usize),
{
    if ret < 0 {
        Err(last_error(err))
    } else {
        Ok(ret as usize)
    }
}

/// What a completed send outcome means, for every value the OS layer can
/// hand back: the failure sentinel maps to the platform error captured
/// beside it; an accepted count different from the requested length is a
/// short send, surfaced as a hard error; accepting exactly the requested
/// length is success.
pub fn interpret_send(ret: i32, err: i32, requested: usize) -> (r: Result<(), SockError>)
    ensures
        ret == -1 ==> r == Err::<(), SockError>(SockError::Os(err)),
        ret != -1 && ret as usize != requested ==> r == Err::<(), SockError>(SockError::ShortSend),
        ret != -1 && ret as usize == requested ==> r == Ok::<(), SockError>(()),
{
    if ret == -1 {
        Err(last_error(err))
    } else if ret as usize != requested {
        Err(SockError::ShortSend)
    } else {
        Ok(())
    }
}

/// One Unix-domain endpoint: an exclusively owned raw handle plus the
/// connection-mode flag fixed at construction.
#[derive(Debug)]
pub struct UnixDatagram {
    fd: i32,
    connected: bool,
}

impl UnixDatagram {
    /// The raw handle this endpoint owns.
    pub closed spec fn spec_fd(&self) -> i32 {
        self.fd
    }

    /// Whether this endpoint was made by `connect` (an implicit peer is
    /// fixed) rather than by `bind` (no implicit peer). Never transitions
    /// after construction.
    pub closed spec fn is_connected(&self) -> bool {
        self.connected
    }

    /// Creates an endpoint connected to the peer at `addr`. The path is
    /// encoded first — an embedded NUL, then an oversized length, is
    /// rejected before any system call — then a handle is opened and the
    /// connect call issued, retried across signal interruption. With a
    /// valid path, every failure is an operating system report, never an
    /// input complaint.
    pub fn connect<S: Syscalls>(sys: &mut S, addr: &[u8], ty: SockType) -> (r: Result<
        UnixDatagram,
        SockError,
    >)
        ensures
            has_nul(addr@) ==> r == Err::<UnixDatagram, SockError>(SockError::PathContainsNul),
            !has_nul(addr@) && addr@.len() >= SUN_PATH_CAPACITY ==> r == Err::<
                UnixDatagram,
                SockError,
            >(SockError::PathTooLong),
            !has_nul(addr@) && addr@.len() < SUN_PATH_CAPACITY ==> (r matches Err(e) ==> e matches
                SockError::Os(_)),
            r matches Ok(d) ==> d.is_connected(),
    {
        let c_ty = ty.raw();
        let a = match SocketAddress::encode(addr) {
            Ok(a) => a,
            Err(e) => { return Err(e) },
        };
        let fd = match connect_fd(sys, &a, c_ty) {
            Ok(fd) => fd,
            Err(e) => { return Err(e) },
        };
        Ok(UnixDatagram { fd, connected: true })
    }

    /// Creates an endpoint bound at `addr`, with no implicit peer. Path
    /// validation and error classification are as for `connect`; the bind
    /// call is issued once, not retried. A pre-existing socket file at the
    /// path is not removed here; callers must clear it themselves.
    pub fn bind<S: Syscalls>(sys: &mut S, addr: &[u8], ty: SockType) -> (r: Result<
        UnixDatagram,
        SockError,
    >)
        ensures
            has_nul(addr@) ==> r == Err::<UnixDatagram, SockError>(SockError::PathContainsNul),
            !has_nul(addr@) && addr@.len() >= SUN_PATH_CAPACITY ==> r == Err::<
                UnixDatagram,
                SockError,
            >(SockError::PathTooLong),
            !has_nul(addr@) && addr@.len() < SUN_PATH_CAPACITY ==> (r matches Err(e) ==> e matches
                SockError::Os(_)),
            r matches Ok(d) ==> !d.is_connected(),
    {
        let c_ty = ty.raw();
        let a = match SocketAddress::encode(addr) {
            Ok(a) => a,
            Err(e) => { return Err(e) },
        };
        let fd = match bind_fd(sys, &a, c_ty) {
            Ok(fd) => fd,
            Err(e) => { return Err(e) },
        };
        Ok(UnixDatagram { fd, connected: false })
    }

    /// The raw handle, for callers that configure it outside this crate.
    pub fn fd(&self) -> (r: i32)
        ensures
            r == self.spec_fd(),
    {
        self.fd
    }

    /// Whether this endpoint has an implicit peer.
    pub fn connected(&self) -> (r: bool)
        ensures
            r == self.is_connected(),
    {
        self.connected
    }

    /// Receives from the implicit peer into `buf`. Legal only on a
    /// Connected endpoint: on a Bound one it fails with the mode error
    /// before any system call, whatever the buffer holds. The receive call
    /// is retried across signal interruption; a non-negative return is the
    /// byte count placed in `buf`, which may be less than the buffer's
    /// capacity (partial datagram reads are normal).
    pub fn recv<S: Syscalls>(&mut self, sys: &mut S, buf: &mut Vec<u8>) -> (r: Result<
        usize,
        SockError,
    >)
        ensures
            *final(self) == *old(self),
            !old(self).is_connected() ==> r == Err::<usize, SockError>(SockError::NotConnected)
                && final(buf)@ == old(buf)@,
            old(self).is_connected() ==> (r matches Err(e) ==> e matches SockError::Os(_)),
    {
        if !self.connected {
            return Err(SockError::NotConnected);
        }
        let mut out: (i32, i32) = (-1, 0);
        loop
            ensures
                !spec_interrupted(out.0, out.1),
            decreases sys.interruption_budget(),
        {
            out = sys.recv(self.fd, buf);
            if !should_retry(out.0, out.1) {
                break;
            }
        }
        interpret_recv(out.0, out.1)
    }

    /// Receives from any sender into `buf`; legal in either connection
    /// mode. The sender's identity is decoded by the OS layer but not yet
    /// surfaced to the caller — only the byte count is returned.
    pub fn recvfrom<S: Syscalls>(&mut self, sys: &mut S, buf: &mut Vec<u8>) -> (r: Result<
        usize,
        SockError,
    >)
        ensures
            *final(self) == *old(self),
            r matches Err(e) ==> e matches SockError::Os(_),
    {
        let mut out: (i32, i32) = (-1, 0);
        loop
            ensures
                !spec_interrupted(out.0, out.1),
            decreases sys.interruption_budget(),
        {
            out = sys.recvfrom(self.fd, buf);
            if !should_retry(out.0, out.1) {
                break;
            }
        }
        interpret_recv(out.0, out.1)
    }

    /// Sends the whole of `buf` to the implicit peer. Legal only on a
    /// Connected endpoint: on a Bound one it fails with the mode error
    /// before any system call. The send call is retried across signal
    /// interruption; if the transport accepts fewer bytes than requested,
    /// that is surfaced as a hard error, never retried or truncated.
    pub fn send<S: Syscalls>(&mut self, sys: &mut S, buf: &[u8]) -> (r: Result<(), SockError>)
        ensures
            *final(self) == *old(self),
            !old(self).is_connected() ==> r == Err::<(), SockError>(SockError::NotConnected),
            old(self).is_connected() ==> (r matches Err(e) ==> (e == SockError::ShortSend
                || e matches SockError::Os(_))),
    {
        if !self.connected {
            return Err(SockError::NotConnected);
        }
        let mut out: (i32, i32) = (-1, 0);
        loop
            ensures
                !spec_interrupted(out.0, out.1),
            decreases sys.interruption_budget(),
        {
            out = sys.send(self.fd, buf);
            if !should_retry(out.0, out.1) {
                break;
            }
        }
        interpret_send(out.0, out.1, buf.len())
    }

    /// Sends the whole of `buf` to the endpoint at `dst`; legal in either
    /// connection mode. The destination is encoded first, with the same
    /// rejections as `connect`; the send call is retried across signal
    /// interruption, and a short send is surfaced as a hard error exactly
    /// as in `send`.
    pub fn sendto<S: Syscalls>(&mut self, sys: &mut S, buf: &[u8], dst: &[u8]) -> (r: Result<
        (),
        SockError,
    >)
        ensures
            *final(self) == *old(self),
            has_nul(dst@) ==> r == Err::<(), SockError>(SockError::PathContainsNul),
            !has_nul(dst@) && dst@.len() >= SUN_PATH_CAPACITY ==> r == Err::<(), SockError>(
                SockError::PathTooLong,
            ),
            !has_nul(dst@) && dst@.len() < SUN_PATH_CAPACITY ==> (r matches Err(e) ==> (e
                == SockError::ShortSend || e matches SockError::Os(_))),
    {
        let a = match SocketAddress::encode(dst) {
            Ok(a) => a,
            Err(e) => { return Err(e) },
        };
        let mut out: (i32, i32) = (-1, 0);
        loop
            ensures
                !spec_interrupted(out.0, out.1),
            decreases sys.interruption_budget(),
        {
            out = sys.sendto(self.fd, buf, &a);
            if !should_retry(out.0, out.1) {
                break;
            }
        }
        interpret_send(out.0, out.1, buf.len())
    }

    /// Releases the endpoint's handle. Taking the endpoint by value makes
    /// the release happen exactly once: no handle can be used or closed
    /// again afterward.
    pub fn close<S: Syscalls>(self, sys: &mut S) -> (r: Result<(), SockError>)
        ensures
            r matches Err(e) ==> e matches SockError::Os(_),
    {
        let out = sys.close(self.fd);
        if out.0 == -1 {
            Err(last_error(out.1))
        } else {
            Ok(())
        }
    }
}

} // verus!
