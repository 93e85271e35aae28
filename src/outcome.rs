//! The three ways a kernel call can end: it completed, it failed in a way the caller can
//! recover from, or it revealed a defect in the calling code that no retry can mend.

use vstd::prelude::*;

verus! {

/// What a system call's raw result means once it has been classified.
#[derive(Debug, Clone, Copy, PartialEq, Eq)]
pub enum Outcome<T, E> {
    /// The call succeeded with this value.
    Completed(T),
    /// The call failed with a typed, recoverable error.
    Failed(E),
    /// The call showed that the calling code is wrong; the process should stop.
    Fatal(Fatal),
}

/// A programming-contract or internal-consistency violation.
///
/// Never handle one of these: report it and stop.
#[derive(Debug, Clone, Copy, PartialEq, Eq, Structural)]
pub enum Fatal {
    /// Invalid value specified in flags.
    InvalidFlags,
    /// The supplied file descriptor was not a valid file descriptor.
    NotAValidFileDescriptor,
    /// Memory handed to the kernel was not accessible.
    BadAddress,
    /// The file descriptor is not an epoll file descriptor.
    NotAnEPollFileDescriptor,
    /// The file descriptor was already registered with this epoll instance.
    AlreadyRegistered,
    /// An epoll instance can not watch itself, or `Exclusive` was used where it is not allowed.
    SelfRegistrationOrExclusive,
    /// Adding would make epoll instances monitor one another in a loop.
    CircularEPollLoop,
    /// The file descriptor does not support epoll (for example, a regular file).
    UnsupportedFileDescriptor,
    /// The file descriptor was not usable, or `Exclusive` was present or absent where it must not be.
    NotUsable,
    /// The file descriptor is not registered with this epoll instance.
    NotRegistered,
    /// A name was too long.
    NameTooLong,
    /// A value passed to the kernel was invalid.
    InvalidArgument,
    /// A socket was used before it was connected.
    NotConnected,
    /// A file descriptor that should be a socket is not one.
    NotASocket,
    /// The flags passed are inappropriate for the socket type.
    UnsupportedSocketFlags,
    /// A message was too large to be sent atomically.
    MessageTooLarge,
    /// A recipient was given for a socket that is already connected.
    AlreadyConnected,
    /// No peer address is set for a socket that is not connection-mode.
    DestinationAddressRequired,
    /// A read that blocks all signals was interrupted or cancelled all the same.
    UnexpectedInterruption,
    /// Readiness was reported with flags that this handler never asked for.
    UnexpectedFlags,
    /// The kernel reported a token that the registration table never handed out.
    UnknownToken,
    /// The kernel reported more events than the buffer holds.
    TooManyEvents,
    /// The kernel reported an error number its documentation does not list for this call.
    UndocumentedErrorNumber,
    /// The kernel returned a value its documentation does not allow for this call.
    UndocumentedResult,
}

impl Fatal {
    /// A sentence describing the violation, for a crash report.
    pub fn message(&self) -> (r: &'static str) {
        match self {
            Fatal::InvalidFlags => "Invalid value specified in flags",
            Fatal::NotAValidFileDescriptor => "The supplied file descriptor was not a valid file descriptor",
            Fatal::BadAddress => "Memory handed to the kernel was outside the process's address space",
            Fatal::NotAnEPollFileDescriptor => "`epfd` is not an epoll file descriptor",
            Fatal::AlreadyRegistered => "The supplied file descriptor was already registered with this epoll instance",
            Fatal::SelfRegistrationOrExclusive => "Can not add epoll file descriptor to its self, or can not make wait on an epoll file descriptor `EPOLLEXCLUSIVE`",
            Fatal::CircularEPollLoop => "The supplied file descriptor is for an epoll instance and this operation would result in a circular loop of epoll instances monitoring one another",
            Fatal::UnsupportedFileDescriptor => "The supplied file descriptor does not support epoll (perhaps it is an open regular file or the like)",
            Fatal::NotUsable => "Supplied file descriptor was not usable or there was the presence or absence of `Exclusive` when required",
            Fatal::NotRegistered => "The supplied file descriptor is not registered with this epoll instance",
            Fatal::NameTooLong => "`name` was too long",
            Fatal::InvalidArgument => "Invalid argument passed",
            Fatal::NotConnected => "The socket is associated with a connection-oriented protocol and has not been connected",
            Fatal::NotASocket => "The argument `sockfd` does not refer to a socket",
            Fatal::UnsupportedSocketFlags => "Some flags in the `flags` argument are inappropriate for the socket type",
            Fatal::MessageTooLarge => "The socket type requires that message be sent atomically, and the size of the message to be sent made this impossible",
            Fatal::AlreadyConnected => "The connection-mode socket was connected already but a recipient was specified",
            Fatal::DestinationAddressRequired => "The socket is not connection-mode, and no peer address is set",
            Fatal::UnexpectedInterruption => "A read was interrupted although all signals are blocked on this thread",
            Fatal::UnexpectedFlags => "Readiness was reported with flags other than those registered for",
            Fatal::UnknownToken => "The kernel reported a token that was never registered",
            Fatal::TooManyEvents => "The kernel reported more events than the buffer can hold",
            Fatal::UndocumentedErrorNumber => "The kernel reported an undocumented error number",
            Fatal::UndocumentedResult => "The kernel returned an undocumented result",
        }
    }
}

} // verus!
