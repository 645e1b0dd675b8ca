//! A minimal interface for local interprocess communication over Unix-domain
//! sockets: endpoints bound to or connected at filesystem paths, exchanging
//! raw byte payloads over stream, datagram, or sequenced-packet transports.
//!
//! The crate is split along the line between logic and the operating system:
//! address encoding, syscall-retry policy, connection-mode gating and result
//! interpretation are verified here, while the raw system calls themselves
//! are reached through the [`Syscalls`] trait, which a caller implements
//! outside this crate (with real `libc` calls, or with a test double).

mod addr;
mod errors;
mod sock;
mod sys;

pub use addr::{has_nul, SocketAddress, AF_UNIX_VALUE, FAMILY_TAG_SIZE, SUN_PATH_CAPACITY};
pub use errors::{last_error, ErrorKind, SockError};
pub use sock::{
    interpret_recv, interpret_send, SockType, UnixDatagram, SOCK_DGRAM_VALUE,
    SOCK_SEQPACKET_VALUE, SOCK_STREAM_VALUE,
};
pub use sys::{should_retry, spec_interrupted, Syscalls, EINTR_VALUE};
