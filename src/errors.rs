//! Typed, recoverable errors of the polling handle's operations.

use vstd::prelude::*;

verus! {

/// Error on creating a file descriptor.
#[derive(Debug, Clone, Copy, PartialEq, Eq, PartialOrd, Ord, Hash, Structural)]
pub enum CreationError {
    /// The per-process limit on the number of open file descriptors would be exceeded.
    PerProcessLimitOnNumberOfFileDescriptorsWouldBeExceeded,
    /// The system-wide limit on the total number of open files would be exceeded.
    SystemWideLimitOnTotalNumberOfFileDescriptorsWouldBeExceeded,
    /// The kernel would be out of memory.
    KernelWouldBeOutOfMemory,
}

/// Error for adding to an epoll instance.
#[derive(Debug, Clone, Copy, PartialEq, Eq, PartialOrd, Ord, Hash, Structural)]
pub enum EPollAddError {
    /// There was insufficient kernel memory to complete the operation.
    ThereWasInsufficientKernelMemory,
    /// The limit on the number of epoll watches would be exceeded.
    LimitOnWatchesWouldBeExceeded,
}

/// Error for modifying a registration of an epoll instance.
#[derive(Debug, Clone, Copy, PartialEq, Eq, PartialOrd, Ord, Hash, Structural)]
pub enum EPollModifyError {
    /// There was insufficient kernel memory to complete the operation.
    ThereWasInsufficientKernelMemory,
}

/// Error for deleting from an epoll instance.
#[derive(Debug, Clone, Copy, PartialEq, Eq, PartialOrd, Ord, Hash, Structural)]
pub enum EPollDeleteError {
    /// There was insufficient kernel memory to complete the operation.
    ThereWasInsufficientKernelMemory,
}

/// Error for waiting on an epoll instance.
#[derive(Debug, Clone, Copy, PartialEq, Eq, PartialOrd, Ord, Hash, Structural)]
pub enum EPollWaitError {
    /// A signal arrived before any event was ready or the time out expired; retrying is safe.
    Interrupted,
}

/// An error that can occur during registration with epoll.
#[derive(Debug, Clone, Copy, PartialEq, Eq, PartialOrd, Ord, Hash, Structural)]
pub enum EPollRegistrationError {
    /// Error on creation.
    Creation(CreationError),
    /// Error during registration.
    Registration(EPollAddError),
}

impl From<CreationError> for EPollRegistrationError {
    fn from(error: CreationError) -> (r: Self) {
        EPollRegistrationError::Creation(error)
    }
}

impl vstd::std_specs::convert::FromSpecImpl<CreationError> for EPollRegistrationError {
    open spec fn obeys_from_spec() -> bool {
        true
    }

    open spec fn from_spec(error: CreationError) -> Self {
        EPollRegistrationError::Creation(error)
    }
}

impl From<EPollAddError> for EPollRegistrationError {
    fn from(error: EPollAddError) -> (r: Self) {
        EPollRegistrationError::Registration(error)
    }
}

impl vstd::std_specs::convert::FromSpecImpl<EPollAddError> for EPollRegistrationError {
    open spec fn obeys_from_spec() -> bool {
        true
    }

    open spec fn from_spec(error: EPollAddError) -> Self {
        EPollRegistrationError::Registration(error)
    }
}

impl EPollRegistrationError {
    /// The underlying error's name, for a report.
    pub fn description(&self) -> (r: &'static str) {
        match self {
            EPollRegistrationError::Creation(CreationError::PerProcessLimitOnNumberOfFileDescriptorsWouldBeExceeded) =>
                "Creation(PerProcessLimitOnNumberOfFileDescriptorsWouldBeExceeded)",
            EPollRegistrationError::Creation(CreationError::SystemWideLimitOnTotalNumberOfFileDescriptorsWouldBeExceeded) =>
                "Creation(SystemWideLimitOnTotalNumberOfFileDescriptorsWouldBeExceeded)",
            EPollRegistrationError::Creation(CreationError::KernelWouldBeOutOfMemory) =>
                "Creation(KernelWouldBeOutOfMemory)",
            EPollRegistrationError::Registration(EPollAddError::ThereWasInsufficientKernelMemory) =>
                "Registration(ThereWasInsufficientKernelMemory)",
            EPollRegistrationError::Registration(EPollAddError::LimitOnWatchesWouldBeExceeded) =>
                "Registration(LimitOnWatchesWouldBeExceeded)",
        }
    }
}

} // verus!
