use file_descriptors::epoll_file_descriptor::MAXIMUM_EVENTS_PER_WAIT;
use file_descriptors::errno as e;
use file_descriptors::flags as f;
use file_descriptors::errno::{
    EBADF, EEXIST, EFAULT, EINTR, EINVAL, ELOOP, EMFILE, ENFILE, ENOENT, ENOMEM, ENOSPC, EPERM,
};
use file_descriptors::flags::{EPOLLERR, EPOLLET, EPOLLHUP, EPOLLIN, EPOLLOUT};
use file_descriptors::{
    CreationError, EPollAddError, EPollAddFlags, EPollDeleteError, EPollEventFlags,
    EPollFileDescriptor, EPollModifyError, EPollRegistrationError, EPollTimeOut, EPollWaitError,
    Fatal, Outcome,
};

#[test]
fn create_result_success_owns_descriptor() {
    match EPollFileDescriptor::from_create_result(7, 0) {
        Outcome::Completed(e) => {
            assert_eq!(e.as_raw_fd(), 7);
            assert_eq!(e.into_raw_fd(), 7);
        }
        _ => panic!("expected success"),
    }
}

#[test]
fn create_result_errors() {
    assert!(matches!(
        EPollFileDescriptor::from_create_result(-1, EMFILE),
        Outcome::Failed(CreationError::PerProcessLimitOnNumberOfFileDescriptorsWouldBeExceeded)
    ));
    assert!(matches!(
        EPollFileDescriptor::from_create_result(-1, ENFILE),
        Outcome::Failed(CreationError::SystemWideLimitOnTotalNumberOfFileDescriptorsWouldBeExceeded)
    ));
    assert!(matches!(
        EPollFileDescriptor::from_create_result(-1, ENOMEM),
        Outcome::Failed(CreationError::KernelWouldBeOutOfMemory)
    ));
    assert!(matches!(
        EPollFileDescriptor::from_create_result(-1, EINVAL),
        Outcome::Fatal(Fatal::InvalidFlags)
    ));
    assert!(matches!(
        EPollFileDescriptor::from_create_result(-1, 9999),
        Outcome::Fatal(Fatal::UndocumentedErrorNumber)
    ));
    assert!(matches!(
        EPollFileDescriptor::from_create_result(-2, 0),
        Outcome::Fatal(Fatal::UndocumentedResult)
    ));
}

#[test]
fn wait_with_zero_length_buffer_is_fatal() {
    assert_eq!(EPollFileDescriptor::maximum_events(0), Err(Fatal::InvalidArgument));
    assert_eq!(EPollFileDescriptor::maximum_events(1), Ok(1));
    assert_eq!(EPollFileDescriptor::maximum_events(1024), Ok(1024));
    assert_eq!(
        EPollFileDescriptor::maximum_events(MAXIMUM_EVENTS_PER_WAIT),
        Ok(178_956_970)
    );
    assert_eq!(MAXIMUM_EVENTS_PER_WAIT, i32::MAX as usize / std::mem::size_of::<libc::epoll_event>());
    assert_eq!(
        EPollFileDescriptor::maximum_events(MAXIMUM_EVENTS_PER_WAIT + 1),
        Err(Fatal::InvalidArgument)
    );
}

#[test]
fn timeout_with_no_activity() {
    assert_eq!(
        EPollFileDescriptor::wait_result(0, 0, 1024),
        Outcome::Completed(0)
    );
    let time_out = EPollTimeOut::in_n_milliseconds(5);
    assert_eq!(time_out.as_kernel_value(), 5);
}

#[test]
fn interrupted_wait() {
    assert_eq!(
        EPollFileDescriptor::wait_result(-1, EINTR, 16),
        Outcome::Failed(EPollWaitError::Interrupted)
    );
}

#[test]
fn wait_result_counts_and_defects() {
    assert_eq!(EPollFileDescriptor::wait_result(3, 0, 16), Outcome::Completed(3));
    assert_eq!(EPollFileDescriptor::wait_result(16, 0, 16), Outcome::Completed(16));
    assert_eq!(
        EPollFileDescriptor::wait_result(17, 0, 16),
        Outcome::Fatal(Fatal::TooManyEvents)
    );
    assert_eq!(
        EPollFileDescriptor::wait_result(-1, EBADF, 16),
        Outcome::Fatal(Fatal::NotAValidFileDescriptor)
    );
    assert_eq!(
        EPollFileDescriptor::wait_result(-1, EFAULT, 16),
        Outcome::Fatal(Fatal::BadAddress)
    );
    assert_eq!(
        EPollFileDescriptor::wait_result(-1, EINVAL, 16),
        Outcome::Fatal(Fatal::NotAnEPollFileDescriptor)
    );
    assert_eq!(
        EPollFileDescriptor::wait_result(-5, 0, 16),
        Outcome::Fatal(Fatal::UndocumentedResult)
    );
}

#[test]
fn add_result_classification() {
    assert_eq!(EPollFileDescriptor::add_result(0, 0), Outcome::Completed(()));
    assert_eq!(
        EPollFileDescriptor::add_result(-1, ENOMEM),
        Outcome::Failed(EPollAddError::ThereWasInsufficientKernelMemory)
    );
    assert_eq!(
        EPollFileDescriptor::add_result(-1, ENOSPC),
        Outcome::Failed(EPollAddError::LimitOnWatchesWouldBeExceeded)
    );
    assert_eq!(
        EPollFileDescriptor::add_result(-1, EBADF),
        Outcome::Fatal(Fatal::NotAValidFileDescriptor)
    );
    assert_eq!(
        EPollFileDescriptor::add_result(-1, EEXIST),
        Outcome::Fatal(Fatal::AlreadyRegistered)
    );
    assert_eq!(
        EPollFileDescriptor::add_result(-1, EINVAL),
        Outcome::Fatal(Fatal::SelfRegistrationOrExclusive)
    );
    assert_eq!(
        EPollFileDescriptor::add_result(-1, ELOOP),
        Outcome::Fatal(Fatal::CircularEPollLoop)
    );
    assert_eq!(
        EPollFileDescriptor::add_result(-1, EPERM),
        Outcome::Fatal(Fatal::UnsupportedFileDescriptor)
    );
    assert_eq!(
        EPollFileDescriptor::add_result(-1, ENOENT),
        Outcome::Fatal(Fatal::UndocumentedErrorNumber)
    );
    assert_eq!(
        EPollFileDescriptor::add_result(1, 0),
        Outcome::Fatal(Fatal::UndocumentedResult)
    );
}

#[test]
fn modify_result_classification() {
    assert_eq!(EPollFileDescriptor::modify_result(0, 0), Outcome::Completed(()));
    assert_eq!(
        EPollFileDescriptor::modify_result(-1, ENOMEM),
        Outcome::Failed(EPollModifyError::ThereWasInsufficientKernelMemory)
    );
    assert_eq!(
        EPollFileDescriptor::modify_result(-1, ENOENT),
        Outcome::Fatal(Fatal::NotRegistered)
    );
    assert_eq!(
        EPollFileDescriptor::modify_result(-1, EINVAL),
        Outcome::Fatal(Fatal::NotUsable)
    );
    assert_eq!(
        EPollFileDescriptor::modify_result(-1, EPERM),
        Outcome::Fatal(Fatal::UnsupportedFileDescriptor)
    );
    assert_eq!(
        EPollFileDescriptor::modify_result(-1, EBADF),
        Outcome::Fatal(Fatal::NotAValidFileDescriptor)
    );
}

#[test]
fn delete_result_classification() {
    assert_eq!(EPollFileDescriptor::delete_result(0, 0), Outcome::Completed(()));
    assert_eq!(
        EPollFileDescriptor::delete_result(-1, ENOMEM),
        Outcome::Failed(EPollDeleteError::ThereWasInsufficientKernelMemory)
    );
    assert_eq!(
        EPollFileDescriptor::delete_result(-1, ENOENT),
        Outcome::Fatal(Fatal::NotRegistered)
    );
    assert_eq!(
        EPollFileDescriptor::delete_result(-1, EEXIST),
        Outcome::Fatal(Fatal::UndocumentedErrorNumber)
    );
    assert_eq!(
        EPollFileDescriptor::delete_result(2, 0),
        Outcome::Fatal(Fatal::UndocumentedResult)
    );
}

#[test]
fn time_out_kernel_values() {
    assert_eq!(EPollTimeOut::Infinite.as_kernel_value(), -1);
    assert_eq!(EPollTimeOut::Immediate.as_kernel_value(), 0);
    assert_eq!(EPollTimeOut::in_n_milliseconds(0), EPollTimeOut::Immediate);
    assert_eq!(EPollTimeOut::in_n_milliseconds(10).as_kernel_value(), 10);
    assert_eq!(EPollTimeOut::in_n_milliseconds(u16::MAX).as_kernel_value(), 65535);
}

#[test]
fn flags_values() {
    assert_eq!(EPollAddFlags::edge_triggered_input().bits(), EPOLLIN | EPOLLET);
    assert_eq!(EPollEventFlags::input().bits(), EPOLLIN);
    let ready = EPollEventFlags::from_bits(EPOLLIN | EPOLLOUT);
    assert!(ready.contains(EPollEventFlags::input()));
    assert!(!EPollEventFlags::input().contains(ready));
    assert!(EPollEventFlags::from_bits(EPOLLIN | EPOLLERR | EPOLLHUP).is_within(EPOLLIN));
    assert!(!EPollEventFlags::from_bits(EPOLLOUT).is_within(EPOLLIN));
}

#[test]
fn registration_error_conversions() {
    assert_eq!(
        EPollRegistrationError::from(CreationError::KernelWouldBeOutOfMemory),
        EPollRegistrationError::Creation(CreationError::KernelWouldBeOutOfMemory)
    );
    let error = EPollRegistrationError::from(EPollAddError::LimitOnWatchesWouldBeExceeded);
    assert_eq!(
        error,
        EPollRegistrationError::Registration(EPollAddError::LimitOnWatchesWouldBeExceeded)
    );
    assert_eq!(error.description(), "Registration(LimitOnWatchesWouldBeExceeded)");
    assert_eq!(
        Fatal::NotRegistered.message(),
        "The supplied file descriptor is not registered with this epoll instance"
    );
}

#[test]
fn constants_match_the_platform() {
    assert_eq!(e::EPERM, libc::EPERM);
    assert_eq!(e::ENOENT, libc::ENOENT);
    assert_eq!(e::EINTR, libc::EINTR);
    assert_eq!(e::EBADF, libc::EBADF);
    assert_eq!(e::EAGAIN, libc::EAGAIN);
    assert_eq!(e::ENOMEM, libc::ENOMEM);
    assert_eq!(e::EACCES, libc::EACCES);
    assert_eq!(e::EFAULT, libc::EFAULT);
    assert_eq!(e::EEXIST, libc::EEXIST);
    assert_eq!(e::EINVAL, libc::EINVAL);
    assert_eq!(e::ENFILE, libc::ENFILE);
    assert_eq!(e::EMFILE, libc::EMFILE);
    assert_eq!(e::ENOSPC, libc::ENOSPC);
    assert_eq!(e::EPIPE, libc::EPIPE);
    assert_eq!(e::ENAMETOOLONG, libc::ENAMETOOLONG);
    assert_eq!(e::ELOOP, libc::ELOOP);
    assert_eq!(e::ENOTSOCK, libc::ENOTSOCK);
    assert_eq!(e::EDESTADDRREQ, libc::EDESTADDRREQ);
    assert_eq!(e::EMSGSIZE, libc::EMSGSIZE);
    assert_eq!(e::EOPNOTSUPP, libc::EOPNOTSUPP);
    assert_eq!(e::ECONNRESET, libc::ECONNRESET);
    assert_eq!(e::ENOBUFS, libc::ENOBUFS);
    assert_eq!(e::EISCONN, libc::EISCONN);
    assert_eq!(e::ENOTCONN, libc::ENOTCONN);
    assert_eq!(e::ECONNREFUSED, libc::ECONNREFUSED);
    assert_eq!(e::ECANCELED, libc::ECANCELED);
    assert_eq!(f::EPOLLIN, libc::EPOLLIN as u32);
    assert_eq!(f::EPOLLPRI, libc::EPOLLPRI as u32);
    assert_eq!(f::EPOLLOUT, libc::EPOLLOUT as u32);
    assert_eq!(f::EPOLLERR, libc::EPOLLERR as u32);
    assert_eq!(f::EPOLLHUP, libc::EPOLLHUP as u32);
    assert_eq!(f::EPOLLRDHUP, libc::EPOLLRDHUP as u32);
    assert_eq!(f::EPOLLEXCLUSIVE, libc::EPOLLEXCLUSIVE as u32);
    assert_eq!(f::EPOLLWAKEUP, libc::EPOLLWAKEUP as u32);
    assert_eq!(f::EPOLLONESHOT, libc::EPOLLONESHOT as u32);
    assert_eq!(f::EPOLLET, libc::EPOLLET as u32);
}
