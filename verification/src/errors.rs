//! Failure classification: every fallible operation of the crate returns a
//! [`SockError`], which carries its class (bad input versus an operating
//! system report) and, for the latter, the platform error code.

use vstd::prelude::*;

verus! {

/// The two classes of failure an operation can report.
#[derive(Clone, Copy, Debug, PartialEq, Eq, Structural)]
pub enum ErrorKind {
    /// The caller handed the operation something it rejects before any
    /// system call: an oversized or NUL-containing path, an operation
    /// illegal in the endpoint's connection mode, or a short send.
    InvalidInput,
    /// A system call reported failure for a reason other than transient
    /// signal interruption; the platform error code is carried along.
    OsError,
}

/// A failure of one operation, precise enough for a caller to branch on.
#[derive(Clone, Copy, Debug, PartialEq, Eq, Structural)]
pub enum SockError {
    /// The path holds an embedded NUL byte.
    PathContainsNul,
    /// The path does not fit the address structure's path field.
    PathTooLong,
    /// `recv` or `send` was called on an endpoint that was bound, not
    /// connected, so no implicit peer exists.
    NotConnected,
    /// The transport accepted fewer bytes than were handed to it in one
    /// call; nothing is retried and nothing is silently truncated.
    ShortSend,
    /// A system call failed; the payload is the platform error code that
    /// was captured immediately beside the failing call.
    Os(i32),
}

impl SockError {
    /// The class a given error belongs to.
    pub open spec fn spec_kind(&self) -> ErrorKind {
        match self {
            SockError::Os(_) => ErrorKind::OsError,
            _ => ErrorKind::InvalidInput,
        }
    }

    /// Reports which class this error belongs to.
    pub fn kind(&self) -> (k: ErrorKind)
        ensures
            k == self.spec_kind(),
    {
        match self {
            SockError::Os(_) => ErrorKind::OsError,
            _ => ErrorKind::InvalidInput,
        }
    }

    /// A short human-readable description of the error.
    pub fn message(&self) -> (m: &'static str)
        ensures
            self is PathContainsNul ==> m@ == "path contains an embedded NUL byte"@,
            self is PathTooLong ==> m@ == "path must be smaller than SUN_LEN"@,
            self is NotConnected ==> m@ == "must call connect() before using the implicit peer"@,
            self is ShortSend ==> m@ == "couldn't send entire packet at once"@,
            self is Os ==> m@ == "system call failed"@,
    {
        match self {
            SockError::PathContainsNul => "path contains an embedded NUL byte",
            SockError::PathTooLong => "path must be smaller than SUN_LEN",
            SockError::NotConnected => "must call connect() before using the implicit peer",
            SockError::ShortSend => "couldn't send entire packet at once",
            SockError::Os(_) => "system call failed",
        }
    }
}

/// Builds the error for a failed system call from the platform error code
/// that was captured atomically beside the call's own return value.
pub fn last_error(code: i32) -> (e: SockError)
    ensures
        e == SockError::Os(code),
{
    SockError::Os(code)
}

} // verus!
