//! The polling handle: one epoll instance, and the meaning of each result its system
//! calls can give.
//!
//! Every error number is put in exactly one of three classes: a typed error the caller
//! may recover from, a defect in the calling code (`Fatal`), or a result the
//! documentation rules out (also `Fatal`).

use vstd::prelude::*;
use crate::errno::{
    EBADF, EEXIST, EFAULT, EINTR, EINVAL, ELOOP, EMFILE, ENFILE, ENOENT, ENOMEM, ENOSPC, EPERM,
};
use crate::errors::{CreationError, EPollAddError, EPollDeleteError, EPollModifyError, EPollWaitError};
use crate::outcome::{Fatal, Outcome};

verus! {

/// The largest number of events one wait may ask for: the kernel's limit, `INT_MAX`
/// divided by the 12 bytes of an x86-64 `epoll_event`.
pub const MAXIMUM_EVENTS_PER_WAIT: usize = 178_956_970;

/// Represents an epoll instance by its file descriptor.
///
/// The descriptor is owned: whoever holds the value closes it, exactly once.
#[derive(Debug, PartialEq, Eq, PartialOrd, Ord, Hash)]
pub struct EPollFileDescriptor {
    fd: i32,
}

impl View for EPollFileDescriptor {
    type V = i32;

    closed spec fn view(&self) -> i32 {
        self.fd
    }
}

/// What `epoll_create1` reporting `errno` means.
pub open spec fn spec_creation_failure(errno: i32) -> Outcome<EPollFileDescriptor, CreationError> {
    if errno == EMFILE {
        Outcome::Failed(CreationError::PerProcessLimitOnNumberOfFileDescriptorsWouldBeExceeded)
    } else if errno == ENFILE {
        Outcome::Failed(CreationError::SystemWideLimitOnTotalNumberOfFileDescriptorsWouldBeExceeded)
    } else if errno == ENOMEM {
        Outcome::Failed(CreationError::KernelWouldBeOutOfMemory)
    } else if errno == EINVAL {
        Outcome::Fatal(Fatal::InvalidFlags)
    } else {
        Outcome::Fatal(Fatal::UndocumentedErrorNumber)
    }
}

/// What `epoll_wait` or `epoll_pwait` reporting `errno` means.
pub open spec fn spec_wait_failure(errno: i32) -> Outcome<usize, EPollWaitError> {
    if errno == EINTR {
        Outcome::Failed(EPollWaitError::Interrupted)
    } else if errno == EBADF {
        Outcome::Fatal(Fatal::NotAValidFileDescriptor)
    } else if errno == EFAULT {
        Outcome::Fatal(Fatal::BadAddress)
    } else if errno == EINVAL {
        Outcome::Fatal(Fatal::NotAnEPollFileDescriptor)
    } else {
        Outcome::Fatal(Fatal::UndocumentedErrorNumber)
    }
}

/// What `epoll_ctl(EPOLL_CTL_ADD)` reporting `errno` means.
pub open spec fn spec_add_failure(errno: i32) -> Outcome<(), EPollAddError> {
    if errno == ENOMEM {
        Outcome::Failed(EPollAddError::ThereWasInsufficientKernelMemory)
    } else if errno == ENOSPC {
        Outcome::Failed(EPollAddError::LimitOnWatchesWouldBeExceeded)
    } else if errno == EBADF {
        Outcome::Fatal(Fatal::NotAValidFileDescriptor)
    } else if errno == EEXIST {
        Outcome::Fatal(Fatal::AlreadyRegistered)
    } else if errno == EINVAL {
        Outcome::Fatal(Fatal::SelfRegistrationOrExclusive)
    } else if errno == ELOOP {
        Outcome::Fatal(Fatal::CircularEPollLoop)
    } else if errno == EPERM {
        Outcome::Fatal(Fatal::UnsupportedFileDescriptor)
    } else {
        Outcome::Fatal(Fatal::UndocumentedErrorNumber)
    }
}

/// What `epoll_ctl(EPOLL_CTL_MOD)` reporting `errno` means.
pub open spec fn spec_modify_failure(errno: i32) -> Outcome<(), EPollModifyError> {
    if errno == ENOMEM {
        Outcome::Failed(EPollModifyError::ThereWasInsufficientKernelMemory)
    } else if errno == EBADF {
        Outcome::Fatal(Fatal::NotAValidFileDescriptor)
    } else if errno == EINVAL {
        Outcome::Fatal(Fatal::NotUsable)
    } else if errno == ENOENT {
        Outcome::Fatal(Fatal::NotRegistered)
    } else if errno == EPERM {
        Outcome::Fatal(Fatal::UnsupportedFileDescriptor)
    } else {
        Outcome::Fatal(Fatal::UndocumentedErrorNumber)
    }
}

/// What `epoll_ctl(EPOLL_CTL_DEL)` reporting `errno` means.
pub open spec fn spec_delete_failure(errno: i32) -> Outcome<(), EPollDeleteError> {
    if errno == ENOMEM {
        Outcome::Failed(EPollDeleteError::ThereWasInsufficientKernelMemory)
    } else if errno == EBADF {
        Outcome::Fatal(Fatal::NotAValidFileDescriptor)
    } else if errno == EINVAL {
        Outcome::Fatal(Fatal::NotUsable)
    } else if errno == ENOENT {
        Outcome::Fatal(Fatal::NotRegistered)
    } else if errno == EPERM {
        Outcome::Fatal(Fatal::UnsupportedFileDescriptor)
    } else {
        Outcome::Fatal(Fatal::UndocumentedErrorNumber)
    }
}

/// What an `epoll_ctl` result of `result` with `errno` means, given how a failure is read.
pub open spec fn spec_control_outcome<E>(result: i32, failure: Outcome<(), E>) -> Outcome<(), E> {
    if result == 0 {
        Outcome::Completed(())
    } else if result == -1 {
        failure
    } else {
        Outcome::Fatal(Fatal::UndocumentedResult)
    }
}

impl EPollFileDescriptor {
    /// Takes ownership of an open epoll file descriptor.
    pub fn adopt(fd: i32) -> (r: Self)
        requires
            fd >= 0,
        ensures
            r@ == fd,
    {
        EPollFileDescriptor { fd }
    }

    /// The file descriptor, still owned by `self`.
    pub fn as_raw_fd(&self) -> (r: i32)
        ensures
            r == self@,
    {
        self.fd
    }

    /// Gives up ownership of the file descriptor; the caller must close it.
    pub fn into_raw_fd(self) -> (r: i32)
        ensures
            r == self@,
    {
        self.fd
    }

    /// Interprets the result of `epoll_create1(EPOLL_CLOEXEC)`: a non-negative result is
    /// the new instance; `-1` means the error number `errno` says what went wrong.
    pub fn from_create_result(result: i32, errno: i32) -> (r: Outcome<EPollFileDescriptor, CreationError>)
        ensures
            result >= 0 ==> (r matches Outcome::Completed(e) && e@ == result),
            result == -1 ==> r == spec_creation_failure(errno),
            result < -1 ==> r == Outcome::<EPollFileDescriptor, CreationError>::Fatal(Fatal::UndocumentedResult),
    {
        if result >= 0 {
            Outcome::Completed(EPollFileDescriptor { fd: result })
        } else if result == -1 {
            if errno == EMFILE {
                Outcome::Failed(CreationError::PerProcessLimitOnNumberOfFileDescriptorsWouldBeExceeded)
            } else if errno == ENFILE {
                Outcome::Failed(CreationError::SystemWideLimitOnTotalNumberOfFileDescriptorsWouldBeExceeded)
            } else if errno == ENOMEM {
                Outcome::Failed(CreationError::KernelWouldBeOutOfMemory)
            } else if errno == EINVAL {
                Outcome::Fatal(Fatal::InvalidFlags)
            } else {
                Outcome::Fatal(Fatal::UndocumentedErrorNumber)
            }
        } else {
            Outcome::Fatal(Fatal::UndocumentedResult)
        }
    }

    /// The `maxevents` argument for a wait into a buffer of `length` events.
    ///
    /// An empty buffer, or one larger than a wait may fill, is a defect of the caller,
    /// never a wait that returns nothing.
    pub fn maximum_events(length: usize) -> (r: Result<i32, Fatal>)
        ensures
            0 < length <= MAXIMUM_EVENTS_PER_WAIT ==> r == Ok::<i32, Fatal>(length as i32),
            length == 0 || length > MAXIMUM_EVENTS_PER_WAIT ==> r == Err::<i32, Fatal>(Fatal::InvalidArgument),
    {
        if length == 0 || length > MAXIMUM_EVENTS_PER_WAIT {
            Err(Fatal::InvalidArgument)
        } else {
            Ok(length as i32)
        }
    }

    /// Interprets the result of `epoll_wait` or `epoll_pwait` into a buffer of
    /// `capacity` events: the number of ready events filled in, `Interrupted`, or a defect.
    ///
    /// A time out is no error: it completes with no events.
    pub fn wait_result(result: i32, errno: i32, capacity: usize) -> (r: Outcome<usize, EPollWaitError>)
        requires
            0 < capacity <= MAXIMUM_EVENTS_PER_WAIT,
        ensures
            0 <= result <= capacity ==> r == Outcome::<usize, EPollWaitError>::Completed(result as usize),
            result > capacity ==> r == Outcome::<usize, EPollWaitError>::Fatal(Fatal::TooManyEvents),
            result == -1 ==> r == spec_wait_failure(errno),
            result < -1 ==> r == Outcome::<usize, EPollWaitError>::Fatal(Fatal::UndocumentedResult),
    {
        if result >= 0 {
            if result as usize <= capacity {
                Outcome::Completed(result as usize)
            } else {
                Outcome::Fatal(Fatal::TooManyEvents)
            }
        } else if result == -1 {
            if errno == EINTR {
                Outcome::Failed(EPollWaitError::Interrupted)
            } else if errno == EBADF {
                Outcome::Fatal(Fatal::NotAValidFileDescriptor)
            } else if errno == EFAULT {
                Outcome::Fatal(Fatal::BadAddress)
            } else if errno == EINVAL {
                Outcome::Fatal(Fatal::NotAnEPollFileDescriptor)
            } else {
                Outcome::Fatal(Fatal::UndocumentedErrorNumber)
            }
        } else {
            Outcome::Fatal(Fatal::UndocumentedResult)
        }
    }

    /// Interprets the result of `epoll_ctl(EPOLL_CTL_ADD)`.
    pub fn add_result(result: i32, errno: i32) -> (r: Outcome<(), EPollAddError>)
        ensures
            r == spec_control_outcome(result, spec_add_failure(errno)),
    {
        if result == 0 {
            Outcome::Completed(())
        } else if result == -1 {
            if errno == ENOMEM {
                Outcome::Failed(EPollAddError::ThereWasInsufficientKernelMemory)
            } else if errno == ENOSPC {
                Outcome::Failed(EPollAddError::LimitOnWatchesWouldBeExceeded)
            } else if errno == EBADF {
                Outcome::Fatal(Fatal::NotAValidFileDescriptor)
            } else if errno == EEXIST {
                Outcome::Fatal(Fatal::AlreadyRegistered)
            } else if errno == EINVAL {
                Outcome::Fatal(Fatal::SelfRegistrationOrExclusive)
            } else if errno == ELOOP {
                Outcome::Fatal(Fatal::CircularEPollLoop)
            } else if errno == EPERM {
                Outcome::Fatal(Fatal::UnsupportedFileDescriptor)
            } else {
                Outcome::Fatal(Fatal::UndocumentedErrorNumber)
            }
        } else {
            Outcome::Fatal(Fatal::UndocumentedResult)
        }
    }

    /// Interprets the result of `epoll_ctl(EPOLL_CTL_MOD)`.
    pub fn modify_result(result: i32, errno: i32) -> (r: Outcome<(), EPollModifyError>)
        ensures
            r == spec_control_outcome(result, spec_modify_failure(errno)),
    {
        if result == 0 {
            Outcome::Completed(())
        } else if result == -1 {
            if errno == ENOMEM {
                Outcome::Failed(EPollModifyError::ThereWasInsufficientKernelMemory)
            } else {
                Outcome::Fatal(Self::control_defect(errno))
            }
        } else {
            Outcome::Fatal(Fatal::UndocumentedResult)
        }
    }

    /// Interprets the result of `epoll_ctl(EPOLL_CTL_DEL)`.
    ///
    /// Insufficient kernel memory is modelled as a typed error although the kernel is not
    /// expected to report it here.
    pub fn delete_result(result: i32, errno: i32) -> (r: Outcome<(), EPollDeleteError>)
        ensures
            r == spec_control_outcome(result, spec_delete_failure(errno)),
    {
        if result == 0 {
            Outcome::Completed(())
        } else if result == -1 {
            if errno == ENOMEM {
                Outcome::Failed(EPollDeleteError::ThereWasInsufficientKernelMemory)
            } else {
                Outcome::Fatal(Self::control_defect(errno))
            }
        } else {
            Outcome::Fatal(Fatal::UndocumentedResult)
        }
    }

    /// The defect that an error number other than `ENOMEM` from modifying or deleting
    /// a registration reveals.
    fn control_defect(errno: i32) -> (r: Fatal)
        requires
            errno != ENOMEM,
        ensures
            spec_modify_failure(errno) == Outcome::<(), EPollModifyError>::Fatal(r),
            spec_delete_failure(errno) == Outcome::<(), EPollDeleteError>::Fatal(r),
    {
        if errno == EBADF {
            Fatal::NotAValidFileDescriptor
        } else if errno == EINVAL {
            Fatal::NotUsable
        } else if errno == ENOENT {
            Fatal::NotRegistered
        } else if errno == EPERM {
            Fatal::UnsupportedFileDescriptor
        } else {
            Fatal::UndocumentedErrorNumber
        }
    }
}

} // verus!
