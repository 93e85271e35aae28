//! Linux error numbers that the kernel interfaces used here can report.

use vstd::prelude::*;

verus! {

/// Operation not permitted.
pub const EPERM: i32 = 1;

/// No such file or directory.
pub const ENOENT: i32 = 2;

/// Interrupted system call.
pub const EINTR: i32 = 4;

/// Bad file descriptor.
pub const EBADF: i32 = 9;

/// Try again; the operation would block.
pub const EAGAIN: i32 = 11;

/// Out of memory.
pub const ENOMEM: i32 = 12;

/// Permission denied.
pub const EACCES: i32 = 13;

/// Bad address.
pub const EFAULT: i32 = 14;

/// File exists.
pub const EEXIST: i32 = 17;

/// Invalid argument.
pub const EINVAL: i32 = 22;

/// File table overflow.
pub const ENFILE: i32 = 23;

/// Too many open files.
pub const EMFILE: i32 = 24;

/// No space left on device.
pub const ENOSPC: i32 = 28;

/// Broken pipe.
pub const EPIPE: i32 = 32;

/// File name too long.
pub const ENAMETOOLONG: i32 = 36;

/// Too many symbolic links encountered.
pub const ELOOP: i32 = 40;

/// Socket operation on non-socket.
pub const ENOTSOCK: i32 = 88;

/// Destination address required.
pub const EDESTADDRREQ: i32 = 89;

/// Message too long.
pub const EMSGSIZE: i32 = 90;

/// Operation not supported on transport endpoint.
pub const EOPNOTSUPP: i32 = 95;

/// Connection reset by peer.
pub const ECONNRESET: i32 = 104;

/// No buffer space available.
pub const ENOBUFS: i32 = 105;

/// Transport endpoint is already connected.
pub const EISCONN: i32 = 106;

/// Transport endpoint is not connected.
pub const ENOTCONN: i32 = 107;

/// Connection refused.
pub const ECONNREFUSED: i32 = 111;

/// Operation canceled.
pub const ECANCELED: i32 = 125;

} // verus!
