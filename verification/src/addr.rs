//! Address encoding: turning a textual filesystem path into the image of the
//! platform's Unix-domain socket address structure.
//!
//! A [`SocketAddress`] holds the address-family tag, a fixed-capacity,
//! zero-padded copy of the path bytes (the image of the structure's path
//! field), and the *effective length* of the whole structure: family tag
//! size + path length + one trailing NUL terminator. Oversized or
//! NUL-containing paths are rejected before any system call, never
//! truncated.

use vstd::prelude::*;

use crate::errors::SockError;

verus! {

/// Number of bytes in the path field (`sun_path`) of the platform's
/// Unix-domain socket address structure. This is the Linux layout of
/// `sockaddr_un`; the longest representable path is one byte shorter,
/// because a NUL terminator is always kept.
pub const SUN_PATH_CAPACITY: usize = 108;

/// Size in bytes of the address-family tag (`sa_family_t`) that precedes
/// the path field in the platform's address structure, per the Linux
/// layout of `sockaddr_un`.
pub const FAMILY_TAG_SIZE: usize = 2;

/// The numeric address-family tag of Unix-domain sockets on Linux.
pub const AF_UNIX_VALUE: u16 = 1;

/// Relies on `libc::AF_UNIX`: the Unix-domain address family constant,
/// which libc defines as 1 on Linux.
#[verifier::external_body]
pub(crate) fn af_unix() -> (r: u16)
    ensures
        r == AF_UNIX_VALUE,
{
    libc::AF_UNIX as u16
}

/// Whether the byte sequence holds an embedded NUL byte.
pub open spec fn has_nul(s: Seq<u8>) -> bool {
    exists|i: int| 0 <= i < s.len() && s[i] == 0
}

/// The encoded form of one Unix-domain socket address: the family tag, the
/// zero-padded image of the path field, and the effective length of the
/// structure. Built and consumed within a single `connect`/`bind`/`sendto`
/// call, never persisted.
#[derive(Debug)]
pub struct SocketAddress {
    family: u16,
    sun_path: Vec<u8>,
    len: usize,
}

impl View for SocketAddress {
    type V = Seq<u8>;

    /// The path this address encodes, as the bytes the caller supplied.
    closed spec fn view(&self) -> Seq<u8> {
        self.sun_path@.subrange(0, self.len - FAMILY_TAG_SIZE - 1)
    }
}

impl SocketAddress {
    /// Length of the encoded path, in bytes.
    closed spec fn path_len(&self) -> int {
        self.len - FAMILY_TAG_SIZE - 1
    }

    /// The address-family tag stored in the structure.
    pub closed spec fn spec_family(&self) -> u16 {
        self.family
    }

    /// The effective length of the structure: family tag size + path
    /// length + one NUL terminator.
    pub closed spec fn spec_effective_len(&self) -> int {
        self.len as int
    }

    /// The full image of the structure's path field: the path bytes
    /// followed by zero padding up to the field's capacity.
    pub closed spec fn spec_buffer(&self) -> Seq<u8> {
        self.sun_path@
    }

    /// Well-formedness: the family tag is the Unix-domain one, the path
    /// field image has exactly the platform capacity, the effective length
    /// is in range, the path bytes are NUL-free, and everything from the
    /// end of the path onward is zero (which supplies the NUL terminator
    /// the effective length counts).
    pub closed spec fn wf(&self) -> bool {
        &&& self.family == AF_UNIX_VALUE
        &&& self.sun_path@.len() == SUN_PATH_CAPACITY
        &&& FAMILY_TAG_SIZE + 1 <= self.len <= FAMILY_TAG_SIZE + SUN_PATH_CAPACITY
        &&& forall|i: int| self.path_len() <= i < SUN_PATH_CAPACITY ==> self.sun_path@[i] == 0
        &&& forall|i: int| 0 <= i < self.path_len() ==> self.sun_path@[i] != 0
    }

    /// What well-formedness gives a caller in terms of the public view:
    /// the effective length is the family tag size plus the path length
    /// plus one, the path fits the field with its terminator, it is
    /// NUL-free, and the path field image is the path followed by zeros.
    pub proof fn lemma_wf(&self)
        requires
            self.wf(),
        ensures
            self.spec_effective_len() == FAMILY_TAG_SIZE + self@.len() + 1,
            self@.len() < SUN_PATH_CAPACITY,
            !has_nul(self@),
            self.spec_family() == AF_UNIX_VALUE,
            self.spec_buffer() =~= self@ + Seq::new((SUN_PATH_CAPACITY - self@.len()) as nat, |i: int| 0u8),
    {
        assert(self@.len() == self.path_len());
        assert forall|i: int| 0 <= i < self@.len() implies self@[i] != 0 by {
            assert(self@[i] == self.sun_path@[i]);
        }
    }

    /// Reports the address-family tag, for conversion into the native
    /// structure.
    pub fn family(&self) -> (r: u16)
        ensures
            r == self.spec_family(),
    {
        self.family
    }

    /// Reports the effective length of the structure, the value handed to
    /// the connect/bind/sendto system calls.
    pub fn effective_len(&self) -> (r: usize)
        ensures
            r as int == self.spec_effective_len(),
    {
        self.len
    }

    /// Borrows the full zero-padded image of the path field, for
    /// conversion into the native structure.
    pub fn sun_path_bytes(&self) -> (r: &[u8])
        ensures
            r@ == self.spec_buffer(),
    {
        self.sun_path.as_slice()
    }

    /// Encodes a path into a socket address. Rejects an embedded NUL byte
    /// first, then a path too long for the structure's path field; on
    /// success the path bytes are copied verbatim, the rest of the field
    /// is zero, and the effective length counts the family tag, the path
    /// and the trailing NUL terminator.
    pub fn encode(path: &[u8]) -> (r: Result<SocketAddress, SockError>)
        ensures
            has_nul(path@) ==> r == Err::<SocketAddress, SockError>(SockError::PathContainsNul),
            !has_nul(path@) && path@.len() >= SUN_PATH_CAPACITY ==> r == Err::<
                SocketAddress,
                SockError,
            >(SockError::PathTooLong),
            !has_nul(path@) && path@.len() < SUN_PATH_CAPACITY ==> (r matches Ok(a) && a.wf()
                && a@ == path@ && a.spec_effective_len() == FAMILY_TAG_SIZE + path@.len() + 1),
    {
        let n: usize = path.len();
        let mut i: usize = 0;
        while i < n
            invariant
                i <= n,
                n == path@.len(),
                forall|j: int| 0 <= j < i ==> path@[j] != 0,
            decreases n - i,
        {
            if path[i] == 0 {
                return Err(SockError::PathContainsNul);
            }
            i += 1;
        }
        if n > SUN_PATH_CAPACITY - 1 {
            return Err(SockError::PathTooLong);
        }
        let mut sun_path: Vec<u8> = Vec::new();
        let mut k: usize = 0;
        while k < n
            invariant
                k <= n,
                n == path@.len(),
                n < SUN_PATH_CAPACITY,
                sun_path@ =~= path@.subrange(0, k as int),
            decreases n - k,
        {
            sun_path.push(path[k]);
            k += 1;
        }
        while sun_path.len() < SUN_PATH_CAPACITY
            invariant
                n <= sun_path@.len() <= SUN_PATH_CAPACITY,
                n == path@.len(),
                sun_path@.subrange(0, n as int) =~= path@,
                forall|j: int| n <= j < sun_path@.len() ==> sun_path@[j] == 0,
            decreases SUN_PATH_CAPACITY - sun_path@.len(),
        {
            sun_path.push(0);
        }
        let family: u16 = af_unix();
        let len: usize = FAMILY_TAG_SIZE + n + 1;
        let a = SocketAddress { family, sun_path, len };
        proof {
            assert(a.sun_path@.subrange(0, n as int) =~= path@);
            assert forall|j: int| 0 <= j < n implies a.sun_path@[j] != 0 by {
                assert(a.sun_path@[j] == a.sun_path@.subrange(0, n as int)[j]);
            }
            assert(a@ =~= path@);
            assert(a.wf());
        }
        Ok(a)
    }
}

} // verus!
