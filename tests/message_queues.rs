use file_descriptors::errno::{EACCES, ENAMETOOLONG, ENOENT};
use file_descriptors::message_queues::unlink_result;
use file_descriptors::{
    Fatal, Outcome, PosixMessageQueue, PosixMessageQueueUnlinkError,
    ReceivePosixMessageQueueFileDescriptor, SendPosixMessageQueueFileDescriptor,
};

#[test]
fn receive_queue_limits() {
    let queue = ReceivePosixMessageQueueFileDescriptor::new(6, 10, 8192);
    assert_eq!(queue.as_raw_fd(), 6);
    assert_eq!(queue.maximum_number_of_enqueued_messages(), 10);
    assert_eq!(queue.maximum_message_size_in_bytes(), 8192);
    assert!(queue.queue_is_empty(0));
    assert!(!queue.queue_is_empty(1));
    assert!(queue.queue_is_full(10));
    assert!(!queue.queue_is_full(9));
    assert_eq!(queue.remaining_space(4), 6);
    assert_eq!(queue.remaining_space(10), 0);
    assert!(queue.can_receive_into(8192));
    assert!(!queue.can_receive_into(8191));
    assert_eq!(queue.into_raw_fd(), 6);
}

#[test]
fn send_queue_limits() {
    let queue = SendPosixMessageQueueFileDescriptor::new(7, 3, 16);
    assert_eq!(queue.as_raw_fd(), 7);
    assert!(queue.can_send(16));
    assert!(!queue.can_send(17));
    assert_eq!(queue.remaining_space(1), 2);
    assert!(queue.queue_is_full(3));
    assert_eq!(queue.into_raw_fd(), 7);
}

#[test]
fn unlink_results() {
    assert_eq!(unlink_result(0, 0), Outcome::Completed(()));
    assert_eq!(unlink_result(-1, EACCES), Outcome::Failed(PosixMessageQueueUnlinkError::PermissionDenied));
    assert_eq!(unlink_result(-1, ENOENT), Outcome::Failed(PosixMessageQueueUnlinkError::DoesNotExist));
    assert_eq!(unlink_result(-1, ENAMETOOLONG), Outcome::Fatal(Fatal::NameTooLong));
    assert_eq!(unlink_result(4, 0), Outcome::Fatal(Fatal::UndocumentedResult));
}
