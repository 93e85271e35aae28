//! The signal-to-readiness adapter: process signals, blocked on the thread, are read as
//! records from a signal file descriptor registered edge-triggered with epoll, and each
//! record is handed to a signal handler inside the ordinary dispatch.
//!
//! Setting up follows a fixed order: fill a mask with every signal, create the signal file
//! descriptor for that mask, block the mask on the thread, then register with epoll. The
//! system calls are made by the caller; the functions here classify their results and
//! make the decisions.

use vstd::prelude::*;
use crate::errno::{EAGAIN, EBADF, ECANCELED, EFAULT, EINTR, EINVAL, EMFILE, ENFILE, ENOMEM};
use crate::errors::{CreationError, EPollAddError, EPollRegistrationError};
use crate::flags::{EPollAddFlags, EPollEventFlags, EPOLLET, EPOLLIN};
use crate::outcome::{Fatal, Outcome};
use crate::reactor::EventPoll;
use crate::run_loop::{successes, PollCall};

verus! {

/// The size in bytes of one record read from a signal file descriptor.
pub const SIGNAL_RECORD_SIZE: usize = 128;

/// The number of records read at once.
pub const SIGNAL_RECORDS_PER_READ: usize = 32;

/// What a signal record says about one delivered signal.
#[derive(Debug, Clone, Copy, PartialEq, Eq, Hash, Structural)]
pub struct SignalInfo {
    /// The signal number.
    pub signal_number: u32,
    /// The signal code, telling how the signal was sent.
    pub code: i32,
    /// The process that sent the signal.
    pub sender_process_identifier: u32,
    /// The real user of the process that sent the signal.
    pub sender_user_identifier: u32,
    /// The exit status or signal of a child, for `SIGCHLD`.
    pub status: i32,
}

/// Handles one signal at a time.
pub trait SignalHandler {
    /// Handles the signal `signal`. An error ends the current dispatch and stops the loop.
    fn handle_signal(&mut self, signal: &SignalInfo) -> Result<(), ()>;
}

/// Why reading a fixed-size record did not produce one.
#[derive(Debug, Clone, Copy, PartialEq, Eq, PartialOrd, Ord, Hash, Structural)]
pub enum StructReadError {
    /// Nothing more to read now; for an edge-triggered registration, fully drained.
    WouldBlock,
    /// The read was cancelled.
    Cancelled,
    /// The read was interrupted by a signal.
    Interrupted,
}

/// Owns a signal file descriptor.
#[derive(Debug, PartialEq, Eq, PartialOrd, Ord, Hash)]
pub struct SignalFileDescriptor {
    fd: i32,
}

impl View for SignalFileDescriptor {
    type V = i32;

    closed spec fn view(&self) -> i32 {
        self.fd
    }
}

/// What `signalfd` reporting `errno` on creation means.
pub open spec fn spec_signal_creation_failure(errno: i32) -> Outcome<SignalFileDescriptor, CreationError> {
    if errno == EMFILE {
        Outcome::Failed(CreationError::PerProcessLimitOnNumberOfFileDescriptorsWouldBeExceeded)
    } else if errno == ENFILE {
        Outcome::Failed(CreationError::SystemWideLimitOnTotalNumberOfFileDescriptorsWouldBeExceeded)
    } else if errno == ENOMEM {
        Outcome::Failed(CreationError::KernelWouldBeOutOfMemory)
    } else if errno == EINVAL {
        Outcome::Fatal(Fatal::InvalidFlags)
    } else {
        Outcome::Fatal(Fatal::UndocumentedErrorNumber)
    }
}

/// What a read of signal records reporting `errno` means.
pub open spec fn spec_signal_read_failure(errno: i32) -> Outcome<usize, StructReadError> {
    if errno == EAGAIN {
        Outcome::Failed(StructReadError::WouldBlock)
    } else if errno == ECANCELED {
        Outcome::Failed(StructReadError::Cancelled)
    } else if errno == EINTR {
        Outcome::Failed(StructReadError::Interrupted)
    } else if errno == EBADF {
        Outcome::Fatal(Fatal::NotAValidFileDescriptor)
    } else if errno == EFAULT {
        Outcome::Fatal(Fatal::BadAddress)
    } else if errno == EINVAL {
        Outcome::Fatal(Fatal::InvalidArgument)
    } else {
        Outcome::Fatal(Fatal::UndocumentedErrorNumber)
    }
}

impl SignalFileDescriptor {
    /// Interprets the result of `signalfd(-1, mask, SFD_NONBLOCK | SFD_CLOEXEC)`.
    pub fn from_create_result(result: i32, errno: i32) -> (r: Outcome<SignalFileDescriptor, CreationError>)
        ensures
            result >= 0 ==> (r matches Outcome::Completed(s) && s@ == result),
            result == -1 ==> r == spec_signal_creation_failure(errno),
            result < -1 ==> r == Outcome::<SignalFileDescriptor, CreationError>::Fatal(Fatal::UndocumentedResult),
    {
        if result >= 0 {
            Outcome::Completed(SignalFileDescriptor { fd: result })
        } else if result == -1 {
            if errno == EMFILE {
                Outcome::Failed(CreationError::PerProcessLimitOnNumberOfFileDescriptorsWouldBeExceeded)
            } else if errno == ENFILE {
                Outcome::Failed(CreationError::SystemWideLimitOnTotalNumberOfFileDescriptorsWouldBeExceeded)
            } else if errno == ENOMEM {
                Outcome::Failed(CreationError::KernelWouldBeOutOfMemory)
            } else if errno == EINVAL {
                Outcome::Fatal(Fatal::InvalidFlags)
            } else {
                Outcome::Fatal(Fatal::UndocumentedErrorNumber)
            }
        } else {
            Outcome::Fatal(Fatal::UndocumentedResult)
        }
    }

    /// The file descriptor, still owned by `self`.
    pub fn as_raw_fd(&self) -> (r: i32)
        ensures
            r == self@,
    {
        self.fd
    }

    /// Interprets the result of reading into a buffer of `capacity` records: the number
    /// of whole records read, or why there were none.
    pub fn read_result(result: isize, errno: i32, capacity: usize) -> (r: Outcome<usize, StructReadError>)
        requires
            0 < capacity <= SIGNAL_RECORDS_PER_READ,
        ensures
            result > 0 && result as int % SIGNAL_RECORD_SIZE as int == 0 && result as int <= capacity
                * SIGNAL_RECORD_SIZE ==> r == Outcome::<usize, StructReadError>::Completed(
                (result as int / SIGNAL_RECORD_SIZE as int) as usize,
            ),
            result == -1 ==> r == spec_signal_read_failure(errno),
            (result == 0 || result < -1 || (result > 0 && (result as int % SIGNAL_RECORD_SIZE as int
                != 0 || result as int > capacity * SIGNAL_RECORD_SIZE))) ==> r == Outcome::<
                usize,
                StructReadError,
            >::Fatal(Fatal::UndocumentedResult),
    {
        if result > 0 {
            let bytes = result as usize;
            if bytes % SIGNAL_RECORD_SIZE == 0 && bytes / SIGNAL_RECORD_SIZE <= capacity {
                Outcome::Completed(bytes / SIGNAL_RECORD_SIZE)
            } else {
                Outcome::Fatal(Fatal::UndocumentedResult)
            }
        } else if result == -1 {
            if errno == EAGAIN {
                Outcome::Failed(StructReadError::WouldBlock)
            } else if errno == ECANCELED {
                Outcome::Failed(StructReadError::Cancelled)
            } else if errno == EINTR {
                Outcome::Failed(StructReadError::Interrupted)
            } else if errno == EBADF {
                Outcome::Fatal(Fatal::NotAValidFileDescriptor)
            } else if errno == EFAULT {
                Outcome::Fatal(Fatal::BadAddress)
            } else if errno == EINVAL {
                Outcome::Fatal(Fatal::InvalidArgument)
            } else {
                Outcome::Fatal(Fatal::UndocumentedErrorNumber)
            }
        } else {
            Outcome::Fatal(Fatal::UndocumentedResult)
        }
    }
}

/// Interprets the result of `sigfillset`: success, or a defect.
pub fn filled_signal_mask_result(result: i32, errno: i32) -> (r: Result<(), Fatal>)
    ensures
        result == 0 ==> r == Ok::<(), Fatal>(()),
        result == -1 && errno == EINVAL ==> r == Err::<(), Fatal>(Fatal::InvalidArgument),
        result == -1 && errno != EINVAL ==> r == Err::<(), Fatal>(Fatal::UndocumentedErrorNumber),
        result != 0 && result != -1 ==> r == Err::<(), Fatal>(Fatal::UndocumentedResult),
{
    if result == 0 {
        Ok(())
    } else if result == -1 {
        if errno == EINVAL {
            Err(Fatal::InvalidArgument)
        } else {
            Err(Fatal::UndocumentedErrorNumber)
        }
    } else {
        Err(Fatal::UndocumentedResult)
    }
}

/// Interprets the result of `pthread_sigmask(SIG_BLOCK, ..)`, which returns the error
/// number itself: success, or a defect.
pub fn block_signals_result(result: i32) -> (r: Result<(), Fatal>)
    ensures
        result == 0 ==> r == Ok::<(), Fatal>(()),
        result == EFAULT ==> r == Err::<(), Fatal>(Fatal::BadAddress),
        result == EINVAL ==> r == Err::<(), Fatal>(Fatal::InvalidArgument),
        result != 0 && result != EFAULT && result != EINVAL ==> r == Err::<(), Fatal>(
            Fatal::UndocumentedErrorNumber,
        ),
{
    if result == 0 {
        Ok(())
    } else if result == EFAULT {
        Err(Fatal::BadAddress)
    } else if result == EINVAL {
        Err(Fatal::InvalidArgument)
    } else {
        Err(Fatal::UndocumentedErrorNumber)
    }
}

/// What to do after one read of signal records during a dispatch.
#[derive(Debug, Clone, Copy, PartialEq, Eq, Structural)]
pub enum SignalDrain {
    /// Every record read was handled; read again until the descriptor would block.
    ReadAgain,
    /// The descriptor would block: the dispatch is over and the loop goes on.
    Drained,
    /// The handler failed on the record at this index; the dispatch fails.
    HandlerFailed(usize),
    /// A defect; stop the process.
    Fatal(Fatal),
}

/// This object forces all signals to be handled using epoll.
pub struct AllSignalReactor<SH> {
    signal_handler: SH,
    signal_file_descriptor: SignalFileDescriptor,
    handled: Ghost<Seq<SignalInfo>>,
    handler_results: Ghost<Seq<bool>>,
    add_call: Ghost<Option<PollCall>>,
}

/// Why registering the adapter with epoll failed, with the signal file descriptor handed
/// back for the caller to close.
#[derive(Debug, PartialEq, Eq)]
pub struct SignalRegistrationFailure {
    /// What went wrong.
    pub error: EPollRegistrationError,
    /// The signal file descriptor that could not be registered.
    pub signal_file_descriptor: SignalFileDescriptor,
}

/// Whether `r` is what registering with epoll gives when the add of descriptor `fd` with
/// `flags` under `token` reported `added`.
pub open spec fn spec_registration_result<SH>(
    added: Result<(), EPollAddError>,
    signal_handler: SH,
    fd: i32,
    flags: u32,
    token: u64,
    r: Result<AllSignalReactor<SH>, SignalRegistrationFailure>,
) -> bool {
    match added {
        Ok(()) => r matches Ok(reactor) && reactor.spec_signal_handler() == signal_handler
            && reactor.spec_fd() == fd && reactor.handled() == Seq::<SignalInfo>::empty()
            && reactor.handler_results() == Seq::<bool>::empty()
            && reactor.spec_add_call() == Some(PollCall::Add { fd, flags, token }),
        Err(e) => r matches Err(failure) && failure.error == EPollRegistrationError::Registration(e)
            && failure.signal_file_descriptor@ == fd,
    }
}

impl<SH> AllSignalReactor<SH> {
    /// The signal handler.
    pub closed spec fn spec_signal_handler(&self) -> SH {
        self.signal_handler
    }

    /// The signal file descriptor.
    pub closed spec fn spec_fd(&self) -> i32 {
        self.signal_file_descriptor@
    }

    /// The records handed to the signal handler so far, oldest first.
    pub closed spec fn handled(&self) -> Seq<SignalInfo> {
        self.handled@
    }

    /// Whether the signal handler succeeded on each record of `handled()`, in order.
    pub closed spec fn handler_results(&self) -> Seq<bool> {
        self.handler_results@
    }

    /// The add call that registered this adapter with epoll, when it registered itself.
    pub closed spec fn spec_add_call(&self) -> Option<PollCall> {
        self.add_call@
    }

    /// An adapter for `signal_file_descriptor`, to be registered readable and
    /// edge-triggered through a run loop.
    ///
    /// The caller has created `signal_file_descriptor` for a mask of every signal and has
    /// then blocked that mask on this thread.
    pub fn new(signal_handler: SH, signal_file_descriptor: SignalFileDescriptor) -> (r: Self)
        ensures
            r.spec_signal_handler() == signal_handler,
            r.spec_fd() == signal_file_descriptor@,
            r.handled() == Seq::<SignalInfo>::empty(),
            r.handler_results() == Seq::<bool>::empty(),
            r.spec_add_call() is None,
    {
        AllSignalReactor {
            signal_handler,
            signal_file_descriptor,
            handled: Ghost(Seq::empty()),
            handler_results: Ghost(Seq::empty()),
            add_call: Ghost(None),
        }
    }

    /// The signal file descriptor.
    pub fn signal_fd(&self) -> (r: i32)
        ensures
            r == self.spec_fd(),
    {
        self.signal_file_descriptor.as_raw_fd()
    }

    /// Builds the adapter from the result of adding its signal file descriptor to epoll
    /// with `flags` under `signal_token`. On failure the descriptor is handed back.
    pub fn from_add_result(
        signal_handler: SH,
        signal_file_descriptor: SignalFileDescriptor,
        flags: EPollAddFlags,
        signal_token: u64,
        added: Result<(), EPollAddError>,
    ) -> (r: Result<Self, SignalRegistrationFailure>)
        ensures
            spec_registration_result(added, signal_handler, signal_file_descriptor@, flags.bits, signal_token, r),
    {
        let ghost fd = signal_file_descriptor@;
        match added {
            Ok(()) => Ok(
                AllSignalReactor {
                    signal_handler,
                    signal_file_descriptor,
                    handled: Ghost(Seq::empty()),
                    handler_results: Ghost(Seq::empty()),
                    add_call: Ghost(Some(PollCall::Add { fd, flags: flags.bits, token: signal_token })),
                },
            ),
            Err(error) => Err(
                SignalRegistrationFailure {
                    error: EPollRegistrationError::from(error),
                    signal_file_descriptor,
                },
            ),
        }
    }

    /// Register with epoll.
    ///
    /// The caller has created `signal_file_descriptor` for a mask of every signal and has
    /// then blocked that mask on this thread; signals are handled through epoll from here
    /// on. Adds the descriptor readable and edge-triggered under `signal_token`; if that
    /// fails, the descriptor is handed back with the error.
    pub fn register_with_epoll<P: EventPoll>(
        signal_handler: SH,
        signal_file_descriptor: SignalFileDescriptor,
        event_poll: &P,
        signal_token: u64,
    ) -> (r: Result<Self, SignalRegistrationFailure>)
        ensures
            exists|added: Result<(), EPollAddError>|
                #[trigger] spec_registration_result(
                    added,
                    signal_handler,
                    signal_file_descriptor@,
                    EPOLLIN | EPOLLET,
                    signal_token,
                    r,
                ),
    {
        let flags = EPollAddFlags::edge_triggered_input();
        let added = event_poll.add(signal_file_descriptor.as_raw_fd(), flags, signal_token);
        Self::from_add_result(signal_handler, signal_file_descriptor, flags, signal_token, added)
    }

    /// Checks the flags of a dispatch: only readable is expected.
    pub fn check_flags(flags: EPollEventFlags) -> (r: Result<(), Fatal>)
        ensures
            flags.bits == EPOLLIN ==> r == Ok::<(), Fatal>(()),
            flags.bits != EPOLLIN ==> r == Err::<(), Fatal>(Fatal::UnexpectedFlags),
    {
        if flags.bits == EPOLLIN {
            Ok(())
        } else {
            Err(Fatal::UnexpectedFlags)
        }
    }
}

/// Whether handing a read's outcome `read` to the adapter took it from `before` to
/// `after` with decision `r`: every record read is handed to the signal handler in order
/// while the handler succeeds, and the first failure stops the batch.
pub open spec fn spec_after_read<SH>(
    before: AllSignalReactor<SH>,
    after: AllSignalReactor<SH>,
    read: Outcome<&[SignalInfo], StructReadError>,
    r: SignalDrain,
) -> bool {
    &&& after.spec_fd() == before.spec_fd()
    &&& after.spec_add_call() == before.spec_add_call()
    &&& match read {
        Outcome::Completed(records) => match r {
            SignalDrain::ReadAgain => after.handled() == before.handled() + records@
                && after.handler_results() == before.handler_results() + successes(records@.len()),
            SignalDrain::HandlerFailed(k) => k < records@.len() && after.handled() == before.handled()
                + records@.take(k + 1) && after.handler_results() == before.handler_results()
                + successes(k as nat).push(false),
            _ => false,
        },
        Outcome::Failed(StructReadError::WouldBlock) => r == SignalDrain::Drained && after.handled()
            == before.handled() && after.handler_results() == before.handler_results(),
        Outcome::Failed(_) => r == SignalDrain::Fatal(Fatal::UnexpectedInterruption) && after.handled()
            == before.handled() && after.handler_results() == before.handler_results(),
        Outcome::Fatal(f) => r == SignalDrain::Fatal(f) && after.handled() == before.handled()
            && after.handler_results() == before.handler_results(),
    }
}

impl<SH: SignalHandler> AllSignalReactor<SH> {
    /// Acts on one read during a dispatch: hands every record read, in order, to the
    /// signal handler and asks for another read; a read that would block ends the
    /// dispatch. A handler failure stops the batch. Interruption is a defect, since every
    /// signal is blocked on this thread.
    pub fn after_read(&mut self, read: Outcome<&[SignalInfo], StructReadError>) -> (r: SignalDrain)
        ensures
            spec_after_read(*old(self), *final(self), read, r),
    {
        match read {
            Outcome::Completed(records) => {
                let mut i: usize = 0;
                let mut failed = false;
                while i < records.len() && !failed
                    invariant
                        i <= records@.len(),
                        self.signal_file_descriptor == old(self).signal_file_descriptor,
                        self.add_call == old(self).add_call,
                        !failed ==> self.handled@ == old(self).handled@ + records@.take(i as int)
                            && self.handler_results@ == old(self).handler_results@ + successes(i as nat),
                        failed ==> i < records@.len() && self.handled@ == old(self).handled@
                            + records@.take(i + 1) && self.handler_results@ == old(self).handler_results@
                            + successes(i as nat).push(false),
                    decreases records@.len() - i + (if failed { 0int } else { 1int }),
                {
                    let handled = self.signal_handler.handle_signal(&records[i]);
                    self.handled = Ghost(self.handled@.push(records@[i as int]));
                    self.handler_results = Ghost(self.handler_results@.push(handled is Ok));
                    assert(self.handled@ =~= old(self).handled@ + records@.take(i + 1));
                    if handled.is_err() {
                        assert(self.handler_results@ =~= old(self).handler_results@ + successes(i as nat).push(false));
                        failed = true;
                    } else {
                        assert(self.handler_results@ =~= old(self).handler_results@ + successes((i + 1) as nat));
                        i = i + 1;
                    }
                }
                if failed {
                    SignalDrain::HandlerFailed(i)
                } else {
                    assert(records@.take(records@.len() as int) =~= records@);
                    SignalDrain::ReadAgain
                }
            },
            Outcome::Failed(StructReadError::WouldBlock) => SignalDrain::Drained,
            Outcome::Failed(_) => SignalDrain::Fatal(Fatal::UnexpectedInterruption),
            Outcome::Fatal(f) => SignalDrain::Fatal(f),
        }
    }
}

} // verus!

verus! {

/// A dispatch ends cleanly only when a read would block: a read that returned records
/// always asks for another read, or fails with the handler.
pub proof fn lemma_drained_only_when_would_block<SH>(
    before: AllSignalReactor<SH>,
    after: AllSignalReactor<SH>,
    read: Outcome<&[SignalInfo], StructReadError>,
)
    requires
        spec_after_read(before, after, read, SignalDrain::Drained),
    ensures
        read == Outcome::<&[SignalInfo], StructReadError>::Failed(StructReadError::WouldBlock),
        after.handled() == before.handled(),
{
}

/// A read of records whose handler succeeded on every one of them asks for another read,
/// with every record handled in order; a handler that failed on a record stops the batch
/// there, with exactly the records up to it handled.
pub proof fn lemma_handler_results_decide<SH>(
    before: AllSignalReactor<SH>,
    after: AllSignalReactor<SH>,
    records: &[SignalInfo],
    r: SignalDrain,
)
    requires
        spec_after_read(before, after, Outcome::Completed(records), r),
    ensures
        after.handler_results() == before.handler_results() + successes(records@.len())
            ==> r == SignalDrain::ReadAgain && after.handled() == before.handled() + records@,
        forall|k: nat| k < records@.len() && after.handler_results() == before.handler_results()
            + #[trigger] successes(k).push(false) ==> r == SignalDrain::HandlerFailed(k as usize)
                && after.handled() == before.handled() + records@.take(k as int + 1),
{
    let base = before.handler_results().len() as int;
    if let SignalDrain::HandlerFailed(j) = r {
        let failed = before.handler_results() + successes(j as nat).push(false);
        assert(failed[base + j] == false);
        if after.handler_results() == before.handler_results() + successes(records@.len()) {
            assert((before.handler_results() + successes(records@.len()))[base + j] == true);
        }
        assert forall|k: nat| k < records@.len() && after.handler_results() == before.handler_results()
            + #[trigger] successes(k).push(false) implies r == SignalDrain::HandlerFailed(k as usize) by {
            assert((before.handler_results() + successes(k).push(false)).len() == base + k + 1);
        }
    } else {
        assert forall|k: nat| k < records@.len() && after.handler_results() == before.handler_results()
            + #[trigger] successes(k).push(false) implies false by {
            let ok = before.handler_results() + successes(records@.len());
            assert(ok[base + k] == true);
            assert((before.handler_results() + successes(k).push(false))[base + k] == false);
        }
    }
}

/// One pending signal whose handler succeeds: the read returning its single record, then
/// a read that would block, hand exactly that record to the handler once and end the
/// dispatch without failing, so the loop goes on.
pub proof fn lemma_single_signal_dispatch<SH>(
    start: AllSignalReactor<SH>,
    middle: AllSignalReactor<SH>,
    end: AllSignalReactor<SH>,
    records: &[SignalInfo],
    signal: SignalInfo,
    first: SignalDrain,
    last: SignalDrain,
)
    requires
        records@ == seq![signal],
        spec_after_read(start, middle, Outcome::Completed(records), first),
        middle.handler_results() == start.handler_results().push(true),
        spec_after_read(middle, end, Outcome::Failed(StructReadError::WouldBlock), last),
    ensures
        first == SignalDrain::ReadAgain,
        last == SignalDrain::Drained,
        end.handled() == start.handled().push(signal),
        end.spec_fd() == start.spec_fd(),
{
    assert(start.handler_results().push(true) =~= start.handler_results() + successes(1));
    lemma_handler_results_decide(start, middle, records, first);
    assert(start.handled() + records@ =~= start.handled().push(signal));
}

/// Two chunks read within one dispatch, before it drains, whose records the handler all
/// succeeds on, are both handed to the handler, in order, without waiting for another
/// readiness event, and the dispatch ends drained without failing.
pub proof fn lemma_two_chunks_one_dispatch<SH>(
    start: AllSignalReactor<SH>,
    middle: AllSignalReactor<SH>,
    later: AllSignalReactor<SH>,
    end: AllSignalReactor<SH>,
    first: &[SignalInfo],
    second: &[SignalInfo],
    first_decision: SignalDrain,
    second_decision: SignalDrain,
    last: SignalDrain,
)
    requires
        spec_after_read(start, middle, Outcome::Completed(first), first_decision),
        middle.handler_results() == start.handler_results() + successes(first@.len()),
        spec_after_read(middle, later, Outcome::Completed(second), second_decision),
        later.handler_results() == middle.handler_results() + successes(second@.len()),
        spec_after_read(later, end, Outcome::Failed(StructReadError::WouldBlock), last),
    ensures
        first_decision == SignalDrain::ReadAgain,
        second_decision == SignalDrain::ReadAgain,
        end.handled() == start.handled() + first@ + second@,
        last == SignalDrain::Drained,
{
    lemma_handler_results_decide(start, middle, first, first_decision);
    lemma_handler_results_decide(middle, later, second, second_decision);
}

} // verus!
