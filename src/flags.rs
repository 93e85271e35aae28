//! Readiness flags: which I/O conditions a registration asks for, and which are ready.

use vstd::prelude::*;

verus! {

/// The associated file is available for reading.
pub const EPOLLIN: u32 = 0x0001;

/// There is an exceptional condition, such as urgent data, on the file.
pub const EPOLLPRI: u32 = 0x0002;

/// The associated file is available for writing.
pub const EPOLLOUT: u32 = 0x0004;

/// An error condition happened on the file; always reported, never needs asking for.
pub const EPOLLERR: u32 = 0x0008;

/// Hang up happened on the file; always reported, never needs asking for.
pub const EPOLLHUP: u32 = 0x0010;

/// The stream socket peer closed its end, or shut down its writing half.
pub const EPOLLRDHUP: u32 = 0x2000;

/// Wake only one of several epoll instances that wait on the same file.
pub const EPOLLEXCLUSIVE: u32 = 0x1000_0000;

/// Keep the system from suspending while this event is queued or being processed.
pub const EPOLLWAKEUP: u32 = 0x2000_0000;

/// Disarm the registration after one event, until it is rearmed by a modify.
pub const EPOLLONESHOT: u32 = 0x4000_0000;

/// Report readiness only on a change of state (edge-triggered).
pub const EPOLLET: u32 = 0x8000_0000;

/// Whether every bit of `part` is set in `whole`.
pub open spec fn bits_within(part: u32, whole: u32) -> bool {
    part & whole == part
}

/// The flags that a ready event reports.
#[derive(Debug, Clone, Copy, PartialEq, Eq, Hash, Structural)]
pub struct EPollEventFlags {
    pub bits: u32,
}

impl EPollEventFlags {
    /// Flags holding exactly `bits`.
    pub fn from_bits(bits: u32) -> (r: Self)
        ensures
            r.bits == bits,
    {
        EPollEventFlags { bits }
    }

    /// Readable, and nothing else.
    pub fn input() -> (r: Self)
        ensures
            r.bits == EPOLLIN,
    {
        EPollEventFlags { bits: EPOLLIN }
    }

    /// The raw bits.
    pub fn bits(&self) -> (r: u32)
        ensures
            r == self.bits,
    {
        self.bits
    }

    /// Whether every flag in `other` is also in `self`.
    pub fn contains(&self, other: EPollEventFlags) -> (r: bool)
        ensures
            r == bits_within(other.bits, self.bits),
    {
        other.bits & self.bits == other.bits
    }

    /// Whether these flags are all within what was asked for, allowing the error and
    /// hang-up conditions that are always reported.
    pub fn is_within(&self, requested: u32) -> (r: bool)
        ensures
            r == bits_within(self.bits, requested | EPOLLERR | EPOLLHUP),
    {
        self.bits & (requested | EPOLLERR | EPOLLHUP) == self.bits
    }
}

/// The flags asked for when a file descriptor is added to an epoll instance.
#[derive(Debug, Clone, Copy, PartialEq, Eq, Hash, Structural)]
pub struct EPollAddFlags {
    pub bits: u32,
}

impl EPollAddFlags {
    /// Flags holding exactly `bits`.
    pub fn from_bits(bits: u32) -> (r: Self)
        ensures
            r.bits == bits,
    {
        EPollAddFlags { bits }
    }

    /// Readable, reported edge-triggered.
    pub fn edge_triggered_input() -> (r: Self)
        ensures
            r.bits == EPOLLIN | EPOLLET,
    {
        EPollAddFlags { bits: EPOLLIN | EPOLLET }
    }

    /// The raw bits.
    pub fn bits(&self) -> (r: u32)
        ensures
            r == self.bits,
    {
        self.bits
    }
}

/// The flags asked for when a registration is modified; `Exclusive` is not allowed here.
#[derive(Debug, Clone, Copy, PartialEq, Eq, Hash, Structural)]
pub struct EPollModifyFlags {
    pub bits: u32,
}

impl EPollModifyFlags {
    /// Flags holding `bits`.
    pub fn from_bits(bits: u32) -> (r: Self)
        ensures
            r.bits == bits,
    {
        EPollModifyFlags { bits }
    }

    /// The raw bits.
    pub fn bits(&self) -> (r: u32)
        ensures
            r == self.bits,
    {
        self.bits
    }
}

} // verus!
