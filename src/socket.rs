//! Streaming Unix domain sockets, as far as they carry file descriptors and credentials:
//! the ancillary (control) messages that `sendmsg` sends and `recvmsg` receives, laid out
//! for 64-bit little-endian Linux, and the meaning of each result of the socket calls.

use vstd::prelude::*;
use crate::errno::{
    EACCES, EAGAIN, EBADF, ECONNREFUSED, ECONNRESET, EDESTADDRREQ, EFAULT, EINTR, EINVAL, EISCONN,
    EMSGSIZE, ENOBUFS, ENOMEM, ENOTCONN, ENOTSOCK, EOPNOTSUPP, EPIPE,
};
use crate::outcome::{Fatal, Outcome};

verus! {

/// The socket level of control messages (`SOL_SOCKET`).
pub const SOL_SOCKET: u32 = 1;

/// A control message carrying file descriptors (`SCM_RIGHTS`).
pub const SCM_RIGHTS: u32 = 1;

/// A control message carrying credentials (`SCM_CREDENTIALS`).
pub const SCM_CREDENTIALS: u32 = 2;

/// The size of a control message header: an 8-byte length, a 4-byte level and a 4-byte type.
pub const CONTROL_MESSAGE_HEADER_SIZE: usize = 16;

/// The most file descriptors one control message may carry here.
pub const MAXIMUM_FILE_DESCRIPTORS_PER_MESSAGE: usize = 253;

/// Process, user and group identifiers.
#[derive(Debug, Clone, Copy, PartialEq, Eq, PartialOrd, Ord, Hash, Structural)]
pub struct Credentials {
    /// Process identifier (`pid`).
    pub process_identifier: i32,
    /// User identifier (`uid`).
    pub user_identifier: u32,
    /// Group identifier (`gid`).
    pub group_identifier: u32,
}

/// Why received control data held no usable file descriptors.
#[derive(Debug, Clone, Copy, PartialEq, Eq, PartialOrd, Ord, Hash, Structural)]
pub enum ReceiveFileDescriptorsError {
    /// The control data was cut short or its length field is inconsistent.
    MalformedControlMessage,
    /// The control message carries something other than file descriptors.
    NotFileDescriptors,
    /// More file descriptors arrived than were asked for.
    MoreThanMaximum,
}

/// How a read on a streaming socket can fail.
#[derive(Debug, Clone, Copy, PartialEq, Eq, PartialOrd, Ord, Hash, Structural)]
pub enum ReadErrorKind {
    /// The peer closed the connection.
    UnexpectedEof,
    /// Nothing to read now.
    WouldBlock,
    /// Interrupted by a signal; retrying is safe.
    Interrupted,
    /// The kernel was out of memory.
    Other,
    /// The connection was reset.
    ConnectionReset,
    /// The connection was refused.
    ConnectionRefused,
}

/// How a write on a streaming socket can fail.
#[derive(Debug, Clone, Copy, PartialEq, Eq, PartialOrd, Ord, Hash, Structural)]
pub enum WriteErrorKind {
    /// Nothing was written.
    WriteZero,
    /// No room to write now.
    WouldBlock,
    /// Interrupted by a signal; retrying is safe.
    Interrupted,
    /// The kernel was out of memory or buffer space.
    Other,
    /// The peer has closed its reading end.
    BrokenPipe,
    /// Permission was denied.
    PermissionDenied,
    /// The connection was reset.
    ConnectionReset,
}

/// `count` bytes holding `value` least significant first.
pub open spec fn le_bytes(value: nat, count: nat) -> Seq<u8>
    decreases count,
{
    if count == 0 {
        Seq::<u8>::empty()
    } else {
        seq![(value % 256) as u8] + le_bytes(value / 256, (count - 1) as nat)
    }
}

/// The value of `bytes`, least significant first.
pub open spec fn le_value(bytes: Seq<u8>) -> nat
    decreases bytes.len(),
{
    if bytes.len() == 0 {
        0
    } else {
        bytes[0] as nat + 256 * le_value(bytes.skip(1))
    }
}

/// `data` rounded up to a multiple of eight bytes with zeros.
pub open spec fn padded(data: Seq<u8>) -> Seq<u8> {
    data + Seq::new(((8 - data.len() % 8) % 8) as nat, |i: int| 0u8)
}

/// A control message of `level` and `kind` carrying `data`, padded to eight bytes.
pub open spec fn control_message(level: u32, kind: u32, data: Seq<u8>) -> Seq<u8> {
    le_bytes((CONTROL_MESSAGE_HEADER_SIZE + data.len()) as nat, 8) + le_bytes(level as nat, 4)
        + le_bytes(kind as nat, 4) + padded(data)
}

/// File descriptors laid out one after the other, four bytes each.
pub open spec fn file_descriptor_bytes(fds: Seq<i32>) -> Seq<u8>
    decreases fds.len(),
{
    if fds.len() == 0 {
        Seq::<u8>::empty()
    } else {
        file_descriptor_bytes(fds.drop_last()) + le_bytes(fds.last() as u32 as nat, 4)
    }
}

/// Credentials laid out as the kernel's `ucred`.
pub open spec fn credentials_bytes(credentials: Credentials) -> Seq<u8> {
    le_bytes(credentials.process_identifier as u32 as nat, 4) + le_bytes(
        credentials.user_identifier as nat,
        4,
    ) + le_bytes(credentials.group_identifier as nat, 4)
}

/// Appends `value` as `count` little-endian bytes.
fn push_le(buffer: &mut Vec<u8>, value: u64, count: usize)
    ensures
        final(buffer)@ == old(buffer)@ + le_bytes(value as nat, count as nat),
{
    let mut remaining = value;
    let mut i: usize = 0;
    while i < count
        invariant
            i <= count,
            buffer@ + le_bytes(remaining as nat, (count - i) as nat) == old(buffer)@ + le_bytes(
                value as nat,
                count as nat,
            ),
        decreases count - i,
    {
        let ghost before = buffer@;
        proof {
            assert(le_bytes(remaining as nat, (count - i) as nat) == seq![(remaining as nat % 256) as u8]
                + le_bytes((remaining / 256) as nat, (count - i - 1) as nat));
        }
        buffer.push((remaining % 256) as u8);
        proof {
            assert(buffer@ + le_bytes((remaining / 256) as nat, (count - i - 1) as nat) =~= before
                + le_bytes(remaining as nat, (count - i) as nat));
        }
        remaining = remaining / 256;
        i = i + 1;
    }
    assert(buffer@ =~= buffer@ + le_bytes(remaining as nat, 0));
}

/// Builds a control message of `level` and `kind` carrying `data`.
fn build_control_message(level: u32, kind: u32, data: &Vec<u8>) -> (r: Vec<u8>)
    requires
        data@.len() <= 0xffff_ffff,
    ensures
        r@ == control_message(level, kind, data@),
{
    let mut message: Vec<u8> = Vec::new();
    push_le(&mut message, CONTROL_MESSAGE_HEADER_SIZE as u64 + data.len() as u64, 8);
    push_le(&mut message, level as u64, 4);
    push_le(&mut message, kind as u64, 4);
    let ghost header = message@;
    let mut i: usize = 0;
    while i < data.len()
        invariant
            i <= data@.len(),
            message@ == header + data@.take(i as int),
        decreases data@.len() - i,
    {
        message.push(data[i]);
        assert(message@ =~= header + data@.take(i + 1));
        i = i + 1;
    }
    assert(data@.take(data@.len() as int) =~= data@);
    let padding = (8 - data.len() % 8) % 8;
    let ghost unpadded = message@;
    let mut j: usize = 0;
    while j < padding
        invariant
            j <= padding,
            padding == (8 - data@.len() % 8) % 8,
            message@ == unpadded + Seq::new(j as nat, |k: int| 0u8),
        decreases padding - j,
    {
        message.push(0u8);
        assert(message@ =~= unpadded + Seq::new((j + 1) as nat, |k: int| 0u8));
        j = j + 1;
    }
    assert(message@ =~= control_message(level, kind, data@));
    message
}

/// Reads `bytes[start .. start + count]` as a little-endian value.
fn read_le(bytes: &[u8], start: usize, count: usize) -> (r: u64)
    requires
        start + count <= bytes@.len(),
        count <= 8,
    ensures
        r as nat == le_value(bytes@.subrange(start as int, start + count)),
{
    let mut value: u64 = 0;
    let mut i: usize = count;
    let length = bytes.len();
    proof {
        assert(bytes@.subrange(start + count, start + count).len() == 0);
        assert(le_value(bytes@.subrange(start + count, start + count)) == 0);
    }
    while i > 0
        invariant
            i <= count <= 8,
            start + count <= bytes@.len(),
            length == bytes@.len(),
            value as nat == le_value(bytes@.subrange(start + i, start + count)),
            value < pow256((count - i) as nat),
        decreases i,
    {
        let b = bytes[start + (i - 1)];
        proof {
            let s = bytes@.subrange(start + i - 1, start + count);
            assert(s.skip(1) =~= bytes@.subrange(start + i, start + count));
            assert(s[0] == b);
            lemma_pow256_step((count - i) as nat);
            assert(value * 256 + b < pow256((count - i + 1) as nat)) by (nonlinear_arith)
                requires
                    value < pow256((count - i) as nat),
                    b < 256,
                    pow256((count - i + 1) as nat) == 256 * pow256((count - i) as nat),
            ;
            lemma_pow256_bound((count - i + 1) as nat);
        }
        value = value * 256 + b as u64;
        i = i - 1;
    }
    value
}

/// 256 to the power `n`.
pub open spec fn pow256(n: nat) -> nat
    decreases n,
{
    if n == 0 {
        1
    } else {
        256 * pow256((n - 1) as nat)
    }
}

proof fn lemma_pow256_step(n: nat)
    ensures
        pow256(n + 1) == 256 * pow256(n),
{
}

proof fn lemma_pow256_bound(n: nat)
    requires
        n <= 8,
    ensures
        pow256(n) <= 0x1_0000_0000_0000_0000,
    decreases n,
{
    reveal_with_fuel(pow256, 9);
}

/// The file descriptors that received control data `control` carries, as a receiver
/// that asked for at most `maximum` sees them.
pub open spec fn spec_received_file_descriptors(control: Seq<u8>, maximum: nat) -> Result<Seq<i32>, ReceiveFileDescriptorsError> {
    if control.len() == 0 {
        Ok(Seq::<i32>::empty())
    } else if control.len() < CONTROL_MESSAGE_HEADER_SIZE {
        Err(ReceiveFileDescriptorsError::MalformedControlMessage)
    } else {
        let length = le_value(control.take(8));
        let level = le_value(control.subrange(8, 12));
        let kind = le_value(control.subrange(12, 16));
        if length < CONTROL_MESSAGE_HEADER_SIZE || length > control.len() || (length - 16) % 4 != 0 {
            Err(ReceiveFileDescriptorsError::MalformedControlMessage)
        } else if level != SOL_SOCKET || kind != SCM_RIGHTS {
            Err(ReceiveFileDescriptorsError::NotFileDescriptors)
        } else if (length - 16) / 4 > maximum {
            Err(ReceiveFileDescriptorsError::MoreThanMaximum)
        } else {
            Ok(
                Seq::new(
                    ((length - 16) / 4) as nat,
                    |i: int| le_value(control.subrange(16 + 4 * i, 20 + 4 * i)) as u32 as i32,
                ),
            )
        }
    }
}

/// The credentials that a `ucred` laid out in `bytes` holds, if it is whole.
pub open spec fn spec_credentials(bytes: Seq<u8>) -> Option<Credentials> {
    if bytes.len() != 12 {
        None
    } else {
        Some(
            Credentials {
                process_identifier: le_value(bytes.take(4)) as u32 as i32,
                user_identifier: le_value(bytes.subrange(4, 8)) as u32,
                group_identifier: le_value(bytes.subrange(8, 12)) as u32,
            },
        )
    }
}

/// What `recvfrom` on a streaming socket reporting `errno` means.
pub open spec fn spec_read_failure(errno: i32) -> Outcome<usize, ReadErrorKind> {
    if errno == EAGAIN {
        Outcome::Failed(ReadErrorKind::WouldBlock)
    } else if errno == EINTR {
        Outcome::Failed(ReadErrorKind::Interrupted)
    } else if errno == ENOMEM {
        Outcome::Failed(ReadErrorKind::Other)
    } else if errno == ECONNRESET {
        Outcome::Failed(ReadErrorKind::ConnectionReset)
    } else if errno == ECONNREFUSED {
        Outcome::Failed(ReadErrorKind::ConnectionRefused)
    } else {
        Outcome::Fatal(spec_socket_defect(errno))
    }
}

/// What `send` on a streaming socket reporting `errno` means.
pub open spec fn spec_write_failure(errno: i32) -> Outcome<usize, WriteErrorKind> {
    if errno == EAGAIN {
        Outcome::Failed(WriteErrorKind::WouldBlock)
    } else if errno == EINTR {
        Outcome::Failed(WriteErrorKind::Interrupted)
    } else if errno == ENOMEM || errno == ENOBUFS {
        Outcome::Failed(WriteErrorKind::Other)
    } else if errno == EPIPE {
        Outcome::Failed(WriteErrorKind::BrokenPipe)
    } else if errno == EACCES {
        Outcome::Failed(WriteErrorKind::PermissionDenied)
    } else if errno == ECONNRESET {
        Outcome::Failed(WriteErrorKind::ConnectionReset)
    } else if errno == EMSGSIZE {
        Outcome::Fatal(Fatal::MessageTooLarge)
    } else if errno == EISCONN {
        Outcome::Fatal(Fatal::AlreadyConnected)
    } else if errno == EDESTADDRREQ {
        Outcome::Fatal(Fatal::DestinationAddressRequired)
    } else {
        Outcome::Fatal(spec_socket_defect(errno))
    }
}

/// The defect that a socket call reporting `errno` reveals, among those all socket calls share.
pub open spec fn spec_socket_defect(errno: i32) -> Fatal {
    if errno == EBADF {
        Fatal::NotAValidFileDescriptor
    } else if errno == EFAULT {
        Fatal::BadAddress
    } else if errno == EINVAL {
        Fatal::InvalidArgument
    } else if errno == ENOTCONN {
        Fatal::NotConnected
    } else if errno == ENOTSOCK {
        Fatal::NotASocket
    } else if errno == EOPNOTSUPP {
        Fatal::UnsupportedSocketFlags
    } else {
        Fatal::UndocumentedErrorNumber
    }
}

/// The defect that a socket call reporting `errno` reveals.
fn socket_defect(errno: i32) -> (r: Fatal)
    ensures
        r == spec_socket_defect(errno),
{
    if errno == EBADF {
        Fatal::NotAValidFileDescriptor
    } else if errno == EFAULT {
        Fatal::BadAddress
    } else if errno == EINVAL {
        Fatal::InvalidArgument
    } else if errno == ENOTCONN {
        Fatal::NotConnected
    } else if errno == ENOTSOCK {
        Fatal::NotASocket
    } else if errno == EOPNOTSUPP {
        Fatal::UnsupportedSocketFlags
    } else {
        Fatal::UndocumentedErrorNumber
    }
}

/// Represents a streaming socket instance between a local peer and a remote peer.
#[derive(Debug, PartialEq, Eq, PartialOrd, Ord, Hash)]
pub struct StreamingSocketFileDescriptor {
    fd: i32,
}

impl View for StreamingSocketFileDescriptor {
    type V = i32;

    closed spec fn view(&self) -> i32 {
        self.fd
    }
}

impl StreamingSocketFileDescriptor {
    /// Takes ownership of a connected streaming socket.
    pub fn adopt(fd: i32) -> (r: Self)
        requires
            fd >= 0,
        ensures
            r@ == fd,
    {
        StreamingSocketFileDescriptor { fd }
    }

    /// The file descriptor, still owned by `self`.
    pub fn as_raw_fd(&self) -> (r: i32)
        ensures
            r == self@,
    {
        self.fd
    }

    /// The control message that sends `file_descriptors` to the remote peer over a Unix
    /// domain socket; hand it to `sendmsg` on this socket.
    pub fn send_file_descriptors(&self, file_descriptors: &[i32]) -> (r: Vec<u8>)
        requires
            file_descriptors@.len() <= MAXIMUM_FILE_DESCRIPTORS_PER_MESSAGE,
        ensures
            r@ == control_message(SOL_SOCKET, SCM_RIGHTS, file_descriptor_bytes(file_descriptors@)),
    {
        let mut data: Vec<u8> = Vec::new();
        let mut i: usize = 0;
        while i < file_descriptors.len()
            invariant
                i <= file_descriptors@.len() <= MAXIMUM_FILE_DESCRIPTORS_PER_MESSAGE,
                data@ == file_descriptor_bytes(file_descriptors@.take(i as int)),
                data@.len() == 4 * i,
            decreases file_descriptors@.len() - i,
        {
            proof {
                assert(file_descriptors@.take(i + 1).drop_last() =~= file_descriptors@.take(i as int));
                assert(file_descriptors@.take(i + 1).last() == file_descriptors@[i as int]);
                reveal_with_fuel(le_bytes, 5);
            }
            push_le(&mut data, file_descriptors[i] as u32 as u64, 4);
            i = i + 1;
        }
        assert(file_descriptors@.take(file_descriptors@.len() as int) =~= file_descriptors@);
        build_control_message(SOL_SOCKET, SCM_RIGHTS, &data)
    }

    /// The control message that sends `credentials` to the remote peer over a Unix domain
    /// socket; hand it to `sendmsg` on this socket.
    ///
    /// Unless the process has the matching capability, each identifier must be its own.
    pub fn send_credentials(&self, credentials: Credentials) -> (r: Vec<u8>)
        ensures
            r@ == control_message(SOL_SOCKET, SCM_CREDENTIALS, credentials_bytes(credentials)),
    {
        let mut data: Vec<u8> = Vec::new();
        push_le(&mut data, credentials.process_identifier as u32 as u64, 4);
        push_le(&mut data, credentials.user_identifier as u64, 4);
        push_le(&mut data, credentials.group_identifier as u64, 4);
        proof {
            reveal_with_fuel(le_bytes, 5);
            assert(data@ =~= credentials_bytes(credentials));
        }
        build_control_message(SOL_SOCKET, SCM_CREDENTIALS, &data)
    }

    /// The file descriptors that the control data `control`, received by `recvmsg` on this
    /// socket, carries; at most `maximum_file_descriptors_to_receive` are accepted.
    pub fn receive_file_descriptors(&self, control: &[u8], maximum_file_descriptors_to_receive: usize) -> (r: Result<Vec<i32>, ReceiveFileDescriptorsError>)
        ensures
            match spec_received_file_descriptors(control@, maximum_file_descriptors_to_receive as nat) {
                Ok(fds) => r matches Ok(v) && v@ == fds,
                Err(e) => r == Err::<Vec<i32>, ReceiveFileDescriptorsError>(e),
            },
    {
        let total = control.len();
        if total == 0 {
            return Ok(Vec::new());
        }
        if total < CONTROL_MESSAGE_HEADER_SIZE {
            return Err(ReceiveFileDescriptorsError::MalformedControlMessage);
        }
        let length = read_le(control, 0, 8);
        let level = read_le(control, 8, 4);
        let kind = read_le(control, 12, 4);
        proof {
            assert(control@.subrange(0, 8) =~= control@.take(8));
        }
        if length < CONTROL_MESSAGE_HEADER_SIZE as u64 || length > total as u64 || (length - 16) % 4 != 0 {
            return Err(ReceiveFileDescriptorsError::MalformedControlMessage);
        }
        if level != SOL_SOCKET as u64 || kind != SCM_RIGHTS as u64 {
            return Err(ReceiveFileDescriptorsError::NotFileDescriptors);
        }
        let count = ((length - 16) / 4) as usize;
        if count > maximum_file_descriptors_to_receive {
            return Err(ReceiveFileDescriptorsError::MoreThanMaximum);
        }
        let ghost expected = Seq::new(
            count as nat,
            |i: int| le_value(control@.subrange(16 + 4 * i, 20 + 4 * i)) as u32 as i32,
        );
        let mut fds: Vec<i32> = Vec::new();
        let mut i: usize = 0;
        while i < count
            invariant
                i <= count,
                16 + 4 * count <= control@.len(),
                total == control@.len(),
                fds@ == expected.take(i as int),
                expected.len() == count,
                forall|k: int| 0 <= k < count ==> #[trigger] expected[k] == le_value(control@.subrange(16 + 4 * k, 20 + 4 * k)) as u32 as i32,
            decreases count - i,
        {
            let value = read_le(control, 16 + 4 * i, 4);
            proof {
                lemma_le_value_bound(control@.subrange(16 + 4 * i, 20 + 4 * i));
                reveal_with_fuel(pow256, 5);
            }
            fds.push(value as u32 as i32);
            assert(fds@ =~= expected.take(i + 1));
            i = i + 1;
        }
        assert(expected.take(count as int) =~= expected);
        Ok(fds)
    }

    /// The remote peer's credentials from the `ucred` that `getsockopt(SO_PEERCRED)` on this
    /// socket filled in as `bytes`: those in effect when the peer called `connect()` or
    /// `socketpair()`.
    pub fn remote_peer_credentials(&self, bytes: &[u8]) -> (r: Option<Credentials>)
        ensures
            r == spec_credentials(bytes@),
    {
        if bytes.len() != 12 {
            return None;
        }
        let process = read_le(bytes, 0, 4);
        let user = read_le(bytes, 4, 4);
        let group = read_le(bytes, 8, 4);
        proof {
            assert(bytes@.subrange(0, 4) =~= bytes@.take(4));
            lemma_le_value_bound(bytes@.take(4));
            lemma_le_value_bound(bytes@.subrange(4, 8));
            lemma_le_value_bound(bytes@.subrange(8, 12));
            reveal_with_fuel(pow256, 5);
        }
        Some(
            Credentials {
                process_identifier: process as u32 as i32,
                user_identifier: user as u32,
                group_identifier: group as u32,
            },
        )
    }

    /// Interprets the result of `recvfrom` into a buffer of `requested` bytes: the number of
    /// bytes read, or why there were none.
    pub fn read_result(result: isize, errno: i32, requested: usize) -> (r: Outcome<usize, ReadErrorKind>)
        requires
            requested > 0,
        ensures
            0 < result <= requested ==> r == Outcome::<usize, ReadErrorKind>::Completed(result as usize),
            result == 0 ==> r == Outcome::<usize, ReadErrorKind>::Failed(ReadErrorKind::UnexpectedEof),
            result == -1 ==> r == spec_read_failure(errno),
            (result < -1 || result > requested) ==> r == Outcome::<usize, ReadErrorKind>::Fatal(Fatal::UndocumentedResult),
    {
        if result > 0 {
            if result as usize <= requested {
                Outcome::Completed(result as usize)
            } else {
                Outcome::Fatal(Fatal::UndocumentedResult)
            }
        } else if result == 0 {
            Outcome::Failed(ReadErrorKind::UnexpectedEof)
        } else if result == -1 {
            if errno == EAGAIN {
                Outcome::Failed(ReadErrorKind::WouldBlock)
            } else if errno == EINTR {
                Outcome::Failed(ReadErrorKind::Interrupted)
            } else if errno == ENOMEM {
                Outcome::Failed(ReadErrorKind::Other)
            } else if errno == ECONNRESET {
                Outcome::Failed(ReadErrorKind::ConnectionReset)
            } else if errno == ECONNREFUSED {
                Outcome::Failed(ReadErrorKind::ConnectionRefused)
            } else {
                Outcome::Fatal(socket_defect(errno))
            }
        } else {
            Outcome::Fatal(Fatal::UndocumentedResult)
        }
    }

    /// Interprets the result of `send` of `requested` bytes: the number of bytes written,
    /// or why there were none.
    pub fn write_result(result: isize, errno: i32, requested: usize) -> (r: Outcome<usize, WriteErrorKind>)
        requires
            requested > 0,
        ensures
            0 < result <= requested ==> r == Outcome::<usize, WriteErrorKind>::Completed(result as usize),
            result == 0 ==> r == Outcome::<usize, WriteErrorKind>::Failed(WriteErrorKind::WriteZero),
            result == -1 ==> r == spec_write_failure(errno),
            (result < -1 || result > requested) ==> r == Outcome::<usize, WriteErrorKind>::Fatal(Fatal::UndocumentedResult),
    {
        if result > 0 {
            if result as usize <= requested {
                Outcome::Completed(result as usize)
            } else {
                Outcome::Fatal(Fatal::UndocumentedResult)
            }
        } else if result == 0 {
            Outcome::Failed(WriteErrorKind::WriteZero)
        } else if result == -1 {
            if errno == EAGAIN {
                Outcome::Failed(WriteErrorKind::WouldBlock)
            } else if errno == EINTR {
                Outcome::Failed(WriteErrorKind::Interrupted)
            } else if errno == ENOMEM || errno == ENOBUFS {
                Outcome::Failed(WriteErrorKind::Other)
            } else if errno == EPIPE {
                Outcome::Failed(WriteErrorKind::BrokenPipe)
            } else if errno == EACCES {
                Outcome::Failed(WriteErrorKind::PermissionDenied)
            } else if errno == ECONNRESET {
                Outcome::Failed(WriteErrorKind::ConnectionReset)
            } else if errno == EMSGSIZE {
                Outcome::Fatal(Fatal::MessageTooLarge)
            } else if errno == EISCONN {
                Outcome::Fatal(Fatal::AlreadyConnected)
            } else if errno == EDESTADDRREQ {
                Outcome::Fatal(Fatal::DestinationAddressRequired)
            } else {
                Outcome::Fatal(socket_defect(errno))
            }
        } else {
            Outcome::Fatal(Fatal::UndocumentedResult)
        }
    }

    /// Interprets the result of `shutdown(SHUT_RDWR)` when the socket is dropped: success,
    /// or a defect.
    pub fn shutdown_result(result: i32, errno: i32) -> (r: Result<(), Fatal>)
        ensures
            result == 0 ==> r == Ok::<(), Fatal>(()),
            result == -1 ==> r == Err::<(), Fatal>(spec_socket_defect(errno)),
            result != 0 && result != -1 ==> r == Err::<(), Fatal>(Fatal::UndocumentedResult),
    {
        if result == 0 {
            Ok(())
        } else if result == -1 {
            Err(socket_defect(errno))
        } else {
            Err(Fatal::UndocumentedResult)
        }
    }
}

proof fn lemma_le_value_bound(bytes: Seq<u8>)
    ensures
        le_value(bytes) < pow256(bytes.len()),
    decreases bytes.len(),
{
    if bytes.len() > 0 {
        lemma_le_value_bound(bytes.skip(1));
        let rest = le_value(bytes.skip(1));
        let p = pow256((bytes.len() - 1) as nat);
        assert(bytes[0] as nat + 256 * rest < 256 * p) by (nonlinear_arith)
            requires
                rest < p,
                bytes[0] < 256,
        ;
    }
}

} // verus!
