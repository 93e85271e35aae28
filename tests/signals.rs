use std::cell::RefCell;
use std::rc::Rc;

use file_descriptors::errno::{EAGAIN, EBADF, ECANCELED, EFAULT, EINTR, EINVAL, EMFILE, ENOMEM};
use file_descriptors::flags::{EPOLLET, EPOLLIN, EPOLLOUT};
use file_descriptors::signals::{block_signals_result, filled_signal_mask_result};
use file_descriptors::{
    AllSignalReactor, CreationError, EPollAddError, EPollAddFlags, EPollDeleteError,
    EPollEventFlags, EPollModifyError, EPollModifyFlags, EPollRegistrationError, EventPoll, Fatal,
    Outcome, SignalDrain, SignalFileDescriptor, SignalHandler, SignalInfo, StructReadError,
};

#[derive(Default)]
struct AddOnlyPoll {
    adds: RefCell<Vec<(i32, u32, u64)>>,
    add_error: Option<EPollAddError>,
}

impl EventPoll for AddOnlyPoll {
    fn add(&self, fd: i32, flags: EPollAddFlags, token: u64) -> Result<(), EPollAddError> {
        self.adds.borrow_mut().push((fd, flags.bits(), token));
        match self.add_error {
            Some(e) => Err(e),
            None => Ok(()),
        }
    }

    fn modify(&self, _fd: i32, _flags: EPollModifyFlags, _token: u64) -> Result<(), EPollModifyError> {
        Ok(())
    }

    fn delete(&self, _fd: i32) -> Result<(), EPollDeleteError> {
        Ok(())
    }
}

struct Collector {
    signals: Rc<RefCell<Vec<u32>>>,
    fail_on: Option<u32>,
}

impl SignalHandler for Collector {
    fn handle_signal(&mut self, signal: &SignalInfo) -> Result<(), ()> {
        self.signals.borrow_mut().push(signal.signal_number);
        if self.fail_on == Some(signal.signal_number) {
            Err(())
        } else {
            Ok(())
        }
    }
}

fn signal(number: u32) -> SignalInfo {
    SignalInfo {
        signal_number: number,
        code: 0,
        sender_process_identifier: 1,
        sender_user_identifier: 0,
        status: 0,
    }
}

fn signal_fd(fd: i32) -> SignalFileDescriptor {
    match SignalFileDescriptor::from_create_result(fd, 0) {
        Outcome::Completed(s) => s,
        _ => panic!("expected a descriptor"),
    }
}

fn registered(fail_on: Option<u32>) -> (AllSignalReactor<Collector>, Rc<RefCell<Vec<u32>>>) {
    let seen = Rc::new(RefCell::new(Vec::new()));
    let poll = AddOnlyPoll::default();
    let handler = Collector { signals: Rc::clone(&seen), fail_on };
    match AllSignalReactor::register_with_epoll(handler, signal_fd(8), &poll, 42) {
        Ok(reactor) => (reactor, seen),
        Err(_) => panic!("registration failed"),
    }
}

#[test]
fn register_with_epoll_adds_edge_triggered_input() {
    let poll = AddOnlyPoll::default();
    let handler = Collector { signals: Rc::new(RefCell::new(Vec::new())), fail_on: None };
    let reactor = AllSignalReactor::register_with_epoll(handler, signal_fd(8), &poll, 42);
    assert_eq!(reactor.map(|r| r.signal_fd()).ok(), Some(8));
    assert_eq!(*poll.adds.borrow(), vec![(8, EPOLLIN | EPOLLET, 42)]);
}

#[test]
fn register_with_epoll_reports_add_failure() {
    let poll = AddOnlyPoll {
        add_error: Some(EPollAddError::ThereWasInsufficientKernelMemory),
        ..AddOnlyPoll::default()
    };
    let handler = Collector { signals: Rc::new(RefCell::new(Vec::new())), fail_on: None };
    let reactor = AllSignalReactor::register_with_epoll(handler, signal_fd(8), &poll, 42);
    let failure = reactor.err().unwrap();
    assert_eq!(
        failure.error,
        EPollRegistrationError::Registration(EPollAddError::ThereWasInsufficientKernelMemory)
    );
    assert_eq!(failure.signal_file_descriptor.as_raw_fd(), 8);
    assert_eq!(*poll.adds.borrow(), vec![(8, EPOLLIN | EPOLLET, 42)]);
}

#[test]
fn from_add_result_maps_outcomes() {
    let handler = Collector { signals: Rc::new(RefCell::new(Vec::new())), fail_on: None };
    let flags = EPollAddFlags::edge_triggered_input();
    let built = AllSignalReactor::from_add_result(handler, signal_fd(3), flags, 9, Ok(()));
    assert_eq!(built.map(|r| r.signal_fd()).ok(), Some(3));
    let handler = Collector { signals: Rc::new(RefCell::new(Vec::new())), fail_on: None };
    let built = AllSignalReactor::from_add_result(
        handler,
        signal_fd(3),
        flags,
        9,
        Err(EPollAddError::LimitOnWatchesWouldBeExceeded),
    );
    let failure = built.err().unwrap();
    assert_eq!(
        failure.error,
        EPollRegistrationError::Registration(EPollAddError::LimitOnWatchesWouldBeExceeded)
    );
    assert_eq!(failure.signal_file_descriptor.as_raw_fd(), 3);
    let handler = Collector { signals: Rc::new(RefCell::new(Vec::new())), fail_on: None };
    assert_eq!(AllSignalReactor::new(handler, signal_fd(5)).signal_fd(), 5);
}

#[test]
fn signal_adapter_end_to_end() {
    let (mut reactor, seen) = registered(None);
    assert_eq!(AllSignalReactor::<Collector>::check_flags(EPollEventFlags::input()), Ok(()));
    let records = [signal(10)];
    assert_eq!(reactor.after_read(Outcome::Completed(&records)), SignalDrain::ReadAgain);
    assert_eq!(reactor.after_read(Outcome::Failed(StructReadError::WouldBlock)), SignalDrain::Drained);
    assert_eq!(*seen.borrow(), vec![10]);
}

#[test]
fn edge_triggered_starvation_check() {
    let (mut reactor, seen) = registered(None);
    let first = [signal(1), signal(2)];
    let second = [signal(15)];
    assert_eq!(reactor.after_read(Outcome::Completed(&first)), SignalDrain::ReadAgain);
    assert_eq!(reactor.after_read(Outcome::Completed(&second)), SignalDrain::ReadAgain);
    assert_eq!(reactor.after_read(Outcome::Failed(StructReadError::WouldBlock)), SignalDrain::Drained);
    assert_eq!(*seen.borrow(), vec![1, 2, 15]);
}

#[test]
fn handler_failure_stops_the_batch() {
    let (mut reactor, seen) = registered(Some(2));
    let records = [signal(1), signal(2), signal(3)];
    assert_eq!(reactor.after_read(Outcome::Completed(&records)), SignalDrain::HandlerFailed(1));
    assert_eq!(*seen.borrow(), vec![1, 2]);
}

#[test]
fn interruption_and_defects_are_fatal() {
    let (mut reactor, seen) = registered(None);
    assert_eq!(
        reactor.after_read(Outcome::Failed(StructReadError::Interrupted)),
        SignalDrain::Fatal(Fatal::UnexpectedInterruption)
    );
    assert_eq!(
        reactor.after_read(Outcome::Failed(StructReadError::Cancelled)),
        SignalDrain::Fatal(Fatal::UnexpectedInterruption)
    );
    assert_eq!(
        reactor.after_read(Outcome::Fatal(Fatal::BadAddress)),
        SignalDrain::Fatal(Fatal::BadAddress)
    );
    assert!(seen.borrow().is_empty());
    assert_eq!(
        AllSignalReactor::<Collector>::check_flags(EPollEventFlags::from_bits(EPOLLIN | EPOLLOUT)),
        Err(Fatal::UnexpectedFlags)
    );
}

#[test]
fn signal_descriptor_results() {
    assert_eq!(signal_fd(12).as_raw_fd(), 12);
    assert!(matches!(
        SignalFileDescriptor::from_create_result(-1, EMFILE),
        Outcome::Failed(CreationError::PerProcessLimitOnNumberOfFileDescriptorsWouldBeExceeded)
    ));
    assert!(matches!(
        SignalFileDescriptor::from_create_result(-1, ENOMEM),
        Outcome::Failed(CreationError::KernelWouldBeOutOfMemory)
    ));
    assert!(matches!(
        SignalFileDescriptor::from_create_result(-1, EINVAL),
        Outcome::Fatal(Fatal::InvalidFlags)
    ));
    assert_eq!(SignalFileDescriptor::read_result(256, 0, 32), Outcome::Completed(2));
    assert_eq!(SignalFileDescriptor::read_result(4096, 0, 32), Outcome::Completed(32));
    assert_eq!(SignalFileDescriptor::read_result(4224, 0, 32), Outcome::Fatal(Fatal::UndocumentedResult));
    assert_eq!(SignalFileDescriptor::read_result(100, 0, 32), Outcome::Fatal(Fatal::UndocumentedResult));
    assert_eq!(SignalFileDescriptor::read_result(0, 0, 32), Outcome::Fatal(Fatal::UndocumentedResult));
    assert_eq!(
        SignalFileDescriptor::read_result(-1, EAGAIN, 32),
        Outcome::Failed(StructReadError::WouldBlock)
    );
    assert_eq!(
        SignalFileDescriptor::read_result(-1, EINTR, 32),
        Outcome::Failed(StructReadError::Interrupted)
    );
    assert_eq!(
        SignalFileDescriptor::read_result(-1, ECANCELED, 32),
        Outcome::Failed(StructReadError::Cancelled)
    );
    assert_eq!(
        SignalFileDescriptor::read_result(-1, EBADF, 32),
        Outcome::Fatal(Fatal::NotAValidFileDescriptor)
    );
}

#[test]
fn mask_results() {
    assert_eq!(filled_signal_mask_result(0, 0), Ok(()));
    assert_eq!(filled_signal_mask_result(-1, EINVAL), Err(Fatal::InvalidArgument));
    assert_eq!(filled_signal_mask_result(-1, EBADF), Err(Fatal::UndocumentedErrorNumber));
    assert_eq!(filled_signal_mask_result(3, 0), Err(Fatal::UndocumentedResult));
    assert_eq!(block_signals_result(0), Ok(()));
    assert_eq!(block_signals_result(EFAULT), Err(Fatal::BadAddress));
    assert_eq!(block_signals_result(EINVAL), Err(Fatal::InvalidArgument));
    assert_eq!(block_signals_result(EBADF), Err(Fatal::UndocumentedErrorNumber));
}
