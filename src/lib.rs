//! A single-threaded, readiness-based I/O event dispatcher built on epoll.
//!
//! The verified core holds the readiness flags, time outs, the classification of every
//! kernel result into success, a typed recoverable error or a fatal contract violation,
//! the registration table that maps tokens to handlers, the run loop's decisions and
//! the signal-to-readiness adapter. System calls themselves are made by the embedding
//! program, which hands the raw results to the functions here.

pub mod errno;
pub mod outcome;
pub mod flags;
pub mod time_out;
pub mod errors;
pub mod epoll_file_descriptor;
pub mod reactor;
pub mod registration_table;
pub mod run_loop;
pub mod signals;
pub mod numbers;
pub mod information;
pub mod message_queues;
pub mod socket;

pub use outcome::{Fatal, Outcome};
pub use flags::{EPollAddFlags, EPollEventFlags, EPollModifyFlags};
pub use time_out::EPollTimeOut;
pub use epoll_file_descriptor::EPollFileDescriptor;
pub use reactor::{EventPoll, Reactor, ReadyEvent};
pub use registration_table::{Delivery, Registration, RegistrationTable};
pub use run_loop::{Dispatch, LoopStep, PollCall, RunLoop};
pub use message_queues::{
    PosixMessageQueue, PosixMessageQueueUnlinkError, ReceivePosixMessageQueueFileDescriptor,
    SendPosixMessageQueueFileDescriptor,
};
pub use socket::{
    Credentials, ReadErrorKind, ReceiveFileDescriptorsError, StreamingSocketFileDescriptor, WriteErrorKind,
};
pub use signals::{
    AllSignalReactor, SignalDrain, SignalFileDescriptor, SignalHandler, SignalInfo,
    SignalRegistrationFailure, StructReadError,
};
pub use errors::{
    CreationError, EPollAddError, EPollDeleteError, EPollModifyError, EPollRegistrationError,
    EPollWaitError,
};
