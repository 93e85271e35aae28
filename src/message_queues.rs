//! POSIX message queue descriptors, as far as the reactor sees them: a waitable file
//! descriptor with fixed limits, fetched once when the queue is opened.

use vstd::prelude::*;
use crate::errno::{EACCES, ENAMETOOLONG, ENOENT};
use crate::outcome::{Fatal, Outcome};

verus! {

/// Error for removing a queue by name.
#[derive(Debug, Clone, Copy, PartialEq, Eq, PartialOrd, Ord, Hash, Structural)]
pub enum PosixMessageQueueUnlinkError {
    /// The caller does not have permission to unlink this message queue.
    PermissionDenied,
    /// There is no message queue with the given name.
    DoesNotExist,
}

/// What `mq_unlink` reporting `errno` means.
pub open spec fn spec_unlink_failure(errno: i32) -> Outcome<(), PosixMessageQueueUnlinkError> {
    if errno == EACCES {
        Outcome::Failed(PosixMessageQueueUnlinkError::PermissionDenied)
    } else if errno == ENOENT {
        Outcome::Failed(PosixMessageQueueUnlinkError::DoesNotExist)
    } else if errno == ENAMETOOLONG {
        Outcome::Fatal(Fatal::NameTooLong)
    } else {
        Outcome::Fatal(Fatal::UndocumentedErrorNumber)
    }
}

/// Interprets the result of `mq_unlink`, which removes a queue's name at once and
/// destroys the queue once no process has it open.
pub fn unlink_result(result: i32, errno: i32) -> (r: Outcome<(), PosixMessageQueueUnlinkError>)
    ensures
        result == 0 ==> r == Outcome::<(), PosixMessageQueueUnlinkError>::Completed(()),
        result == -1 ==> r == spec_unlink_failure(errno),
        result != 0 && result != -1 ==> r == Outcome::<(), PosixMessageQueueUnlinkError>::Fatal(
            Fatal::UndocumentedResult,
        ),
{
    if result == 0 {
        Outcome::Completed(())
    } else if result == -1 {
        if errno == EACCES {
            Outcome::Failed(PosixMessageQueueUnlinkError::PermissionDenied)
        } else if errno == ENOENT {
            Outcome::Failed(PosixMessageQueueUnlinkError::DoesNotExist)
        } else if errno == ENAMETOOLONG {
            Outcome::Fatal(Fatal::NameTooLong)
        } else {
            Outcome::Fatal(Fatal::UndocumentedErrorNumber)
        }
    } else {
        Outcome::Fatal(Fatal::UndocumentedResult)
    }
}

/// Represents a message queue file descriptor for reading, writing or both.
pub trait PosixMessageQueue {
    /// The maximum number of enqueued messages.
    spec fn spec_maximum_number_of_enqueued_messages(&self) -> usize;

    /// The maximum message size in bytes.
    spec fn spec_maximum_message_size_in_bytes(&self) -> usize;

    /// The file descriptor.
    spec fn spec_fd(&self) -> i32;

    /// The file descriptor, still owned by `self`.
    fn as_raw_fd(&self) -> (r: i32)
        ensures
            r == self.spec_fd(),
    ;

    /// The maximum number of enqueued messages; it never changes.
    fn maximum_number_of_enqueued_messages(&self) -> (r: usize)
        ensures
            r == self.spec_maximum_number_of_enqueued_messages(),
    ;

    /// The maximum message size in bytes; it never changes.
    fn maximum_message_size_in_bytes(&self) -> (r: usize)
        ensures
            r == self.spec_maximum_message_size_in_bytes(),
    ;

    /// Is the queue, holding `queue_depth` unread messages, full?
    fn queue_is_full(&self, queue_depth: usize) -> (r: bool)
        ensures
            r == (queue_depth >= self.spec_maximum_number_of_enqueued_messages()),
    {
        queue_depth >= self.maximum_number_of_enqueued_messages()
    }

    /// Is the queue, holding `queue_depth` unread messages, empty?
    fn queue_is_empty(&self, queue_depth: usize) -> (r: bool)
        ensures
            r == (queue_depth == 0),
    {
        queue_depth == 0
    }

    /// How many messages can be enqueued before the queue, holding `queue_depth` unread
    /// messages, is full?
    fn remaining_space(&self, queue_depth: usize) -> (r: usize)
        ensures
            queue_depth <= self.spec_maximum_number_of_enqueued_messages() ==> r
                == self.spec_maximum_number_of_enqueued_messages() - queue_depth,
            queue_depth > self.spec_maximum_number_of_enqueued_messages() ==> r == 0,
    {
        let maximum = self.maximum_number_of_enqueued_messages();
        if queue_depth <= maximum {
            maximum - queue_depth
        } else {
            0
        }
    }
}

/// Represents a POSIX message queue instance for receiving messages.
#[derive(Debug, PartialEq, Eq, PartialOrd, Ord, Hash)]
pub struct ReceivePosixMessageQueueFileDescriptor {
    message_queue_file_descriptor: i32,
    maximum_number_of_enqueued_messages: usize,
    maximum_message_size_in_bytes: usize,
}

impl ReceivePosixMessageQueueFileDescriptor {
    /// Takes ownership of a queue opened for receiving, with the limits it was opened with.
    pub fn new(fd: i32, maximum_number_of_enqueued_messages: usize, maximum_message_size_in_bytes: usize) -> (r: Self)
        requires
            fd >= 0,
        ensures
            r.spec_fd() == fd,
            r.spec_maximum_number_of_enqueued_messages() == maximum_number_of_enqueued_messages,
            r.spec_maximum_message_size_in_bytes() == maximum_message_size_in_bytes,
    {
        ReceivePosixMessageQueueFileDescriptor {
            message_queue_file_descriptor: fd,
            maximum_number_of_enqueued_messages,
            maximum_message_size_in_bytes,
        }
    }

    /// Gives up ownership of the file descriptor; the caller must close it.
    pub fn into_raw_fd(self) -> (r: i32)
        ensures
            r == self.spec_fd(),
    {
        self.message_queue_file_descriptor
    }

    /// Whether a buffer of `length` bytes can receive any message of this queue.
    pub fn can_receive_into(&self, length: usize) -> (r: bool)
        ensures
            r == (length >= self.spec_maximum_message_size_in_bytes()),
    {
        length >= self.maximum_message_size_in_bytes
    }
}

impl PosixMessageQueue for ReceivePosixMessageQueueFileDescriptor {
    closed spec fn spec_maximum_number_of_enqueued_messages(&self) -> usize {
        self.maximum_number_of_enqueued_messages
    }

    closed spec fn spec_maximum_message_size_in_bytes(&self) -> usize {
        self.maximum_message_size_in_bytes
    }

    closed spec fn spec_fd(&self) -> i32 {
        self.message_queue_file_descriptor
    }

    fn as_raw_fd(&self) -> (r: i32) {
        self.message_queue_file_descriptor
    }

    fn maximum_number_of_enqueued_messages(&self) -> (r: usize) {
        self.maximum_number_of_enqueued_messages
    }

    fn maximum_message_size_in_bytes(&self) -> (r: usize) {
        self.maximum_message_size_in_bytes
    }
}

/// Represents a POSIX message queue instance for sending messages.
#[derive(Debug, PartialEq, Eq, PartialOrd, Ord, Hash)]
pub struct SendPosixMessageQueueFileDescriptor {
    message_queue_file_descriptor: i32,
    maximum_number_of_enqueued_messages: usize,
    maximum_message_size_in_bytes: usize,
}

impl SendPosixMessageQueueFileDescriptor {
    /// Takes ownership of a queue opened for sending, with the limits it was opened with.
    pub fn new(fd: i32, maximum_number_of_enqueued_messages: usize, maximum_message_size_in_bytes: usize) -> (r: Self)
        requires
            fd >= 0,
        ensures
            r.spec_fd() == fd,
            r.spec_maximum_number_of_enqueued_messages() == maximum_number_of_enqueued_messages,
            r.spec_maximum_message_size_in_bytes() == maximum_message_size_in_bytes,
    {
        SendPosixMessageQueueFileDescriptor {
            message_queue_file_descriptor: fd,
            maximum_number_of_enqueued_messages,
            maximum_message_size_in_bytes,
        }
    }

    /// Gives up ownership of the file descriptor; the caller must close it.
    pub fn into_raw_fd(self) -> (r: i32)
        ensures
            r == self.spec_fd(),
    {
        self.message_queue_file_descriptor
    }

    /// Whether a message of `length` bytes can be sent on this queue.
    pub fn can_send(&self, length: usize) -> (r: bool)
        ensures
            r == (length <= self.spec_maximum_message_size_in_bytes()),
    {
        length <= self.maximum_message_size_in_bytes
    }
}

impl PosixMessageQueue for SendPosixMessageQueueFileDescriptor {
    closed spec fn spec_maximum_number_of_enqueued_messages(&self) -> usize {
        self.maximum_number_of_enqueued_messages
    }

    closed spec fn spec_maximum_message_size_in_bytes(&self) -> usize {
        self.maximum_message_size_in_bytes
    }

    closed spec fn spec_fd(&self) -> i32 {
        self.message_queue_file_descriptor
    }

    fn as_raw_fd(&self) -> (r: i32) {
        self.message_queue_file_descriptor
    }

    fn maximum_number_of_enqueued_messages(&self) -> (r: usize) {
        self.maximum_number_of_enqueued_messages
    }

    fn maximum_message_size_in_bytes(&self) -> (r: usize) {
        self.maximum_message_size_in_bytes
    }
}

} // verus!
