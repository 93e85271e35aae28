use file_descriptors::errno::{
    EACCES, EAGAIN, EBADF, ECONNREFUSED, ECONNRESET, EDESTADDRREQ, EFAULT, EINTR, EINVAL, EISCONN,
    EMSGSIZE, ENOBUFS, ENOMEM, ENOTCONN, ENOTSOCK, EOPNOTSUPP, EPIPE,
};
use file_descriptors::socket::{SCM_CREDENTIALS, SCM_RIGHTS, SOL_SOCKET};
use file_descriptors::{
    Credentials, Fatal, Outcome, ReadErrorKind, ReceiveFileDescriptorsError,
    StreamingSocketFileDescriptor, WriteErrorKind,
};

fn socket() -> StreamingSocketFileDescriptor {
    StreamingSocketFileDescriptor::adopt(4)
}

#[test]
fn send_file_descriptors_builds_rights_message() {
    let message = socket().send_file_descriptors(&[3, 7]);
    let mut expected = Vec::new();
    expected.extend_from_slice(&24u64.to_le_bytes());
    expected.extend_from_slice(&1u32.to_le_bytes());
    expected.extend_from_slice(&1u32.to_le_bytes());
    expected.extend_from_slice(&3i32.to_le_bytes());
    expected.extend_from_slice(&7i32.to_le_bytes());
    assert_eq!(message, expected);
}

#[test]
fn send_one_file_descriptor_is_padded() {
    let message = socket().send_file_descriptors(&[-1]);
    assert_eq!(message.len(), 24);
    assert_eq!(&message[0..8], &20u64.to_le_bytes());
    assert_eq!(&message[16..20], &[0xff, 0xff, 0xff, 0xff]);
    assert_eq!(&message[20..24], &[0, 0, 0, 0]);
}

#[test]
fn send_credentials_builds_credentials_message() {
    let credentials = Credentials { process_identifier: 1234, user_identifier: 1000, group_identifier: 100 };
    let message = socket().send_credentials(credentials);
    assert_eq!(message.len(), 32);
    assert_eq!(&message[0..8], &28u64.to_le_bytes());
    assert_eq!(&message[8..12], &SOL_SOCKET.to_le_bytes());
    assert_eq!(&message[12..16], &SCM_CREDENTIALS.to_le_bytes());
    assert_eq!(&message[16..20], &1234i32.to_le_bytes());
    assert_eq!(&message[20..24], &1000u32.to_le_bytes());
    assert_eq!(&message[24..28], &100u32.to_le_bytes());
    assert_eq!(&message[28..32], &[0, 0, 0, 0]);
}

#[test]
fn control_message_sizes_match_the_platform() {
    assert_eq!(SOL_SOCKET as i32, libc::SOL_SOCKET);
    assert_eq!(SCM_RIGHTS as i32, libc::SCM_RIGHTS);
    assert_eq!(SCM_CREDENTIALS as i32, libc::SCM_CREDENTIALS);
    assert_eq!(socket().send_file_descriptors(&[1, 2, 3]).len(), 32);
    assert_eq!(std::mem::size_of::<libc::cmsghdr>(), 16);
    assert_eq!(std::mem::size_of::<libc::ucred>(), 12);
}

#[test]
fn receive_round_trips_sent_descriptors() {
    let s = socket();
    let message = s.send_file_descriptors(&[5, 6, 9]);
    assert_eq!(s.receive_file_descriptors(&message, 3), Ok(vec![5, 6, 9]));
    assert_eq!(
        s.receive_file_descriptors(&message, 2),
        Err(ReceiveFileDescriptorsError::MoreThanMaximum)
    );
    assert_eq!(s.receive_file_descriptors(&[], 2), Ok(vec![]));
}

#[test]
fn receive_rejects_other_messages() {
    let s = socket();
    let credentials = Credentials { process_identifier: 1, user_identifier: 2, group_identifier: 3 };
    let message = s.send_credentials(credentials);
    assert_eq!(
        s.receive_file_descriptors(&message, 10),
        Err(ReceiveFileDescriptorsError::NotFileDescriptors)
    );
    let mut wrong_kind = s.send_file_descriptors(&[5]);
    wrong_kind[12] = 2;
    assert_eq!(
        s.receive_file_descriptors(&wrong_kind, 10),
        Err(ReceiveFileDescriptorsError::NotFileDescriptors)
    );
    let truncated = s.send_file_descriptors(&[5, 6]);
    assert_eq!(
        s.receive_file_descriptors(&truncated[..20], 10),
        Err(ReceiveFileDescriptorsError::MalformedControlMessage)
    );
    assert_eq!(
        s.receive_file_descriptors(&truncated[..8], 10),
        Err(ReceiveFileDescriptorsError::MalformedControlMessage)
    );
}

#[test]
fn remote_peer_credentials_decode() {
    let mut bytes = Vec::new();
    bytes.extend_from_slice(&(-5i32).to_le_bytes());
    bytes.extend_from_slice(&1000u32.to_le_bytes());
    bytes.extend_from_slice(&u32::MAX.to_le_bytes());
    assert_eq!(
        socket().remote_peer_credentials(&bytes),
        Some(Credentials { process_identifier: -5, user_identifier: 1000, group_identifier: u32::MAX })
    );
    assert_eq!(socket().remote_peer_credentials(&bytes[..11]), None);
}

#[test]
fn read_results() {
    assert_eq!(StreamingSocketFileDescriptor::read_result(10, 0, 64), Outcome::Completed(10));
    assert_eq!(StreamingSocketFileDescriptor::read_result(0, 0, 64), Outcome::Failed(ReadErrorKind::UnexpectedEof));
    assert_eq!(StreamingSocketFileDescriptor::read_result(-1, EAGAIN, 64), Outcome::Failed(ReadErrorKind::WouldBlock));
    assert_eq!(StreamingSocketFileDescriptor::read_result(-1, EINTR, 64), Outcome::Failed(ReadErrorKind::Interrupted));
    assert_eq!(StreamingSocketFileDescriptor::read_result(-1, ENOMEM, 64), Outcome::Failed(ReadErrorKind::Other));
    assert_eq!(StreamingSocketFileDescriptor::read_result(-1, ECONNRESET, 64), Outcome::Failed(ReadErrorKind::ConnectionReset));
    assert_eq!(StreamingSocketFileDescriptor::read_result(-1, ECONNREFUSED, 64), Outcome::Failed(ReadErrorKind::ConnectionRefused));
    assert_eq!(StreamingSocketFileDescriptor::read_result(-1, ENOTCONN, 64), Outcome::Fatal(Fatal::NotConnected));
    assert_eq!(StreamingSocketFileDescriptor::read_result(65, 0, 64), Outcome::Fatal(Fatal::UndocumentedResult));
    assert_eq!(StreamingSocketFileDescriptor::read_result(-1, ENOTSOCK, 64), Outcome::Fatal(Fatal::NotASocket));
    assert_eq!(StreamingSocketFileDescriptor::read_result(-1, EOPNOTSUPP, 64), Outcome::Fatal(Fatal::UnsupportedSocketFlags));
    assert_eq!(StreamingSocketFileDescriptor::read_result(-1, EFAULT, 64), Outcome::Fatal(Fatal::BadAddress));
    assert_eq!(StreamingSocketFileDescriptor::read_result(-1, EINVAL, 64), Outcome::Fatal(Fatal::InvalidArgument));
    assert_eq!(StreamingSocketFileDescriptor::read_result(-1, 9999, 64), Outcome::Fatal(Fatal::UndocumentedErrorNumber));
    assert_eq!(StreamingSocketFileDescriptor::read_result(-2, 0, 64), Outcome::Fatal(Fatal::UndocumentedResult));
}

#[test]
fn write_results() {
    assert_eq!(StreamingSocketFileDescriptor::write_result(3, 0, 3), Outcome::Completed(3));
    assert_eq!(StreamingSocketFileDescriptor::write_result(0, 0, 3), Outcome::Failed(WriteErrorKind::WriteZero));
    assert_eq!(StreamingSocketFileDescriptor::write_result(-1, ENOBUFS, 3), Outcome::Failed(WriteErrorKind::Other));
    assert_eq!(StreamingSocketFileDescriptor::write_result(-1, EPIPE, 3), Outcome::Failed(WriteErrorKind::BrokenPipe));
    assert_eq!(StreamingSocketFileDescriptor::write_result(-1, EACCES, 3), Outcome::Failed(WriteErrorKind::PermissionDenied));
    assert_eq!(StreamingSocketFileDescriptor::write_result(-1, EMSGSIZE, 3), Outcome::Fatal(Fatal::MessageTooLarge));
    assert_eq!(StreamingSocketFileDescriptor::write_result(-1, EISCONN, 3), Outcome::Fatal(Fatal::AlreadyConnected));
    assert_eq!(StreamingSocketFileDescriptor::write_result(-1, EDESTADDRREQ, 3), Outcome::Fatal(Fatal::DestinationAddressRequired));
    assert_eq!(StreamingSocketFileDescriptor::write_result(-1, EBADF, 3), Outcome::Fatal(Fatal::NotAValidFileDescriptor));
    assert_eq!(StreamingSocketFileDescriptor::write_result(-1, EAGAIN, 3), Outcome::Failed(WriteErrorKind::WouldBlock));
    assert_eq!(StreamingSocketFileDescriptor::write_result(-1, EINTR, 3), Outcome::Failed(WriteErrorKind::Interrupted));
    assert_eq!(StreamingSocketFileDescriptor::write_result(-1, ECONNRESET, 3), Outcome::Failed(WriteErrorKind::ConnectionReset));
    assert_eq!(StreamingSocketFileDescriptor::write_result(-1, ENOMEM, 3), Outcome::Failed(WriteErrorKind::Other));
    assert_eq!(StreamingSocketFileDescriptor::write_result(4, 0, 3), Outcome::Fatal(Fatal::UndocumentedResult));
}

#[test]
fn shutdown_results() {
    assert_eq!(StreamingSocketFileDescriptor::shutdown_result(0, 0), Ok(()));
    assert_eq!(StreamingSocketFileDescriptor::shutdown_result(-1, ENOTCONN), Err(Fatal::NotConnected));
    assert_eq!(StreamingSocketFileDescriptor::shutdown_result(1, 0), Err(Fatal::UndocumentedResult));
}
