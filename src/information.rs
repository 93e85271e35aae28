//! Reading an epoll instance's registrations from `/proc/<pid>/fdinfo/<fd>`.
//!
//! This is a diagnostic path: the caller reads the file line by line and hands each line,
//! without its line feed, to the parsers here.

use vstd::prelude::*;
use vstd::slice::slice_subrange;
use crate::numbers::{parse_integer, spec_integer_in};

verus! {

/// The longest line accepted.
pub const MAXIMUM_BYTES_PER_LINE: usize = 256;

/// Why a line could not be read.
#[derive(Debug, Clone, Copy, PartialEq, Eq, Hash, Structural)]
pub enum InformationError {
    /// The data was not in the expected format.
    InvalidData,
}

/// Appends `bytes` to the line being read, unless the line would exceed
/// `MAXIMUM_BYTES_PER_LINE` bytes; a longer line is invalid data.
pub fn extend_line(line: &mut Vec<u8>, bytes: &[u8]) -> (r: Result<(), InformationError>)
    ensures
        old(line)@.len() + bytes@.len() <= MAXIMUM_BYTES_PER_LINE ==> r == Ok::<(), InformationError>(())
            && final(line)@ == old(line)@ + bytes@,
        old(line)@.len() + bytes@.len() > MAXIMUM_BYTES_PER_LINE ==> r == Err::<(), InformationError>(
            InformationError::InvalidData,
        ) && final(line)@ == old(line)@,
{
    if line.len() > MAXIMUM_BYTES_PER_LINE || bytes.len() > MAXIMUM_BYTES_PER_LINE - line.len() {
        return Err(invalid_data());
    }
    line.extend_from_slice(bytes);
    assert(line@ =~= old(line)@ + bytes@);
    Ok(())
}

/// The error for data not in the expected format.
pub fn invalid_data() -> (r: InformationError)
    ensures
        r == InformationError::InvalidData,
{
    InformationError::InvalidData
}

/// The three header lines of an fdinfo file.
#[derive(Debug, Clone, Copy, PartialEq, Eq, Hash, Structural)]
pub struct FileDescriptorInformationHeader {
    /// The file offset (`pos:`, decimal).
    pub file_offset: i64,
    /// The file access mode and status flags (`flags:`, octal).
    pub file_flags: u32,
    /// The mount identifier (`mnt_id:`).
    pub mount_identifier: u64,
}

/// One registration of an epoll instance, as fdinfo shows it.
#[derive(Debug, Clone, Copy, PartialEq, Eq, Hash, Structural)]
pub struct EPollInformationItem {
    /// The registered file descriptor.
    pub target_file_descriptor: i32,
    /// The flags it was registered with.
    pub event_flags: u32,
    /// The token it was registered with.
    pub token: u64,
    /// The file position of the registered file.
    pub position: i64,
    /// The inode of the registered file.
    pub inode: i64,
    /// The device of the registered file.
    pub sdevice: u32,
}

/// Whether a byte is ASCII white space, as `str::trim_start` removes it.
pub open spec fn is_white_space(b: u8) -> bool {
    b == 32 || (9 <= b <= 13)
}

/// `s` without its leading white space.
pub open spec fn trim_start(s: Seq<u8>) -> Seq<u8>
    decreases s.len(),
{
    if s.len() > 0 && is_white_space(s[0]) {
        trim_start(s.skip(1))
    } else {
        s
    }
}

/// The index of the first space in `s`, or its length if there is none.
pub open spec fn first_space(s: Seq<u8>) -> int
    decreases s.len(),
{
    if s.len() == 0 {
        0
    } else if s[0] == 32 {
        0
    } else {
        1 + first_space(s.skip(1))
    }
}

/// After `prefix`, a value of exactly `width` bytes, and the rest of the line.
pub open spec fn spec_fixed_width(remaining: Seq<u8>, prefix: Seq<u8>, width: int) -> Option<(Seq<u8>, Seq<u8>)> {
    if remaining.len() < prefix.len() + width || remaining.take(prefix.len() as int) != prefix {
        None
    } else {
        Some(
            (
                remaining.subrange(prefix.len() as int, prefix.len() + width),
                remaining.skip(prefix.len() + width),
            ),
        )
    }
}

/// After `prefix`, a value that runs to the next space, and the rest of the line after
/// that space.
pub open spec fn spec_space_terminated(remaining: Seq<u8>, prefix: Seq<u8>) -> Option<(Seq<u8>, Seq<u8>)> {
    if remaining.len() < prefix.len() || remaining.take(prefix.len() as int) != prefix {
        None
    } else {
        let after = remaining.skip(prefix.len() as int);
        let end = first_space(after);
        Some(
            (
                after.take(end),
                if end < after.len() {
                    after.skip(end + 1)
                } else {
                    after.skip(end)
                },
            ),
        )
    }
}

proof fn lemma_first_space_bounds(s: Seq<u8>)
    ensures
        0 <= first_space(s) <= s.len(),
        first_space(s) < s.len() ==> s[first_space(s)] == 32,
        forall|i: int| 0 <= i < first_space(s) ==> s[i] != 32,
    decreases s.len(),
{
    if s.len() > 0 && s[0] != 32 {
        lemma_first_space_bounds(s.skip(1));
        assert forall|i: int| 0 <= i < first_space(s) implies s[i] != 32 by {
            if i > 0 {
                assert(s.skip(1)[i - 1] == s[i]);
            }
        }
    }
}

/// Whether the first `prefix@.len()` bytes of `s` are `prefix`.
fn starts_with(s: &[u8], prefix: &[u8]) -> (r: bool)
    ensures
        r == (s@.len() >= prefix@.len() && s@.take(prefix@.len() as int) == prefix@),
{
    if s.len() < prefix.len() {
        return false;
    }
    let mut i: usize = 0;
    while i < prefix.len()
        invariant
            i <= prefix@.len() <= s@.len(),
            forall|j: int| 0 <= j < i ==> s@[j] == prefix@[j],
        decreases prefix@.len() - i,
    {
        if s[i] != prefix[i] {
            assert(s@.take(prefix@.len() as int)[i as int] != prefix@[i as int]);
            return false;
        }
        i = i + 1;
    }
    assert(s@.take(prefix@.len() as int) =~= prefix@);
    true
}

/// `s` without its leading white space.
fn trim_start_slice(s: &[u8]) -> (r: &[u8])
    ensures
        r@ == trim_start(s@),
{
    let mut i: usize = 0;
    assert(s@.skip(0) =~= s@);
    while i < s.len() && (s[i] == 32 || (9 <= s[i] && s[i] <= 13))
        invariant
            i <= s@.len(),
            trim_start(s@) == trim_start(s@.skip(i as int)),
        decreases s@.len() - i,
    {
        proof {
            assert(s@.skip(i as int).skip(1) =~= s@.skip(i + 1));
        }
        i = i + 1;
    }
    let r = slice_subrange(s, i, s.len());
    proof {
        assert(r@ =~= s@.skip(i as int));
    }
    r
}

/// Splits a fixed-width value, introduced by `prefix`, from the front of `remaining`.
pub fn extract_fixed_width_value_from_slice<'a>(remaining: &'a [u8], prefix: &[u8], width: usize) -> (r: Result<(&'a [u8], &'a [u8]), InformationError>)
    ensures
        match spec_fixed_width(remaining@, prefix@, width as int) {
            Some((value, rest)) => r matches Ok((v, t)) && v@ == value && t@ == rest,
            None => r == Err::<(&[u8], &[u8]), InformationError>(InformationError::InvalidData),
        },
{
    if remaining.len() < prefix.len() || remaining.len() - prefix.len() < width {
        return Err(invalid_data());
    }
    if !starts_with(remaining, prefix) {
        return Err(invalid_data());
    }
    let end = prefix.len() + width;
    let value = slice_subrange(remaining, prefix.len(), end);
    let rest = slice_subrange(remaining, end, remaining.len());
    proof {
        assert(rest@ =~= remaining@.skip(end as int));
    }
    Ok((value, rest))
}

/// Splits a space-terminated value, introduced by `prefix`, from the front of `remaining`;
/// the space is dropped. A value that ends the line needs no space.
pub fn extract_space_terminated_value_from_slice<'a>(remaining: &'a [u8], prefix: &[u8]) -> (r: Result<(&'a [u8], &'a [u8]), InformationError>)
    ensures
        match spec_space_terminated(remaining@, prefix@) {
            Some((value, rest)) => r matches Ok((v, t)) && v@ == value && t@ == rest,
            None => r == Err::<(&[u8], &[u8]), InformationError>(InformationError::InvalidData),
        },
{
    if !starts_with(remaining, prefix) {
        return Err(invalid_data());
    }
    let after = slice_subrange(remaining, prefix.len(), remaining.len());
    let ghost a = after@;
    proof {
        assert(a =~= remaining@.skip(prefix@.len() as int));
        lemma_first_space_bounds(a);
    }
    let mut end: usize = 0;
    while end < after.len() && after[end] != 32
        invariant
            end <= a.len(),
            a == after@,
            0 <= first_space(a) <= a.len(),
            first_space(a) < a.len() ==> a[first_space(a)] == 32,
            forall|i: int| 0 <= i < first_space(a) ==> a[i] != 32,
            end <= first_space(a),
        decreases a.len() - end,
    {
        end = end + 1;
    }
    let value = slice_subrange(after, 0, end);
    let rest = if end < after.len() {
        slice_subrange(after, end + 1, after.len())
    } else {
        slice_subrange(after, end, after.len())
    };
    proof {
        assert(end == first_space(a));
        assert(value@ =~= a.take(end as int));
        if end < a.len() {
            assert(rest@ =~= a.skip(end + 1));
        } else {
            assert(rest@ =~= a.skip(end as int));
        }
    }
    Ok((value, rest))
}

/// Reads an integer from `raw`, mapping failure to invalid data.
fn integer(raw: &[u8], radix: u32, signed: bool, minimum: i64, maximum: u64) -> (r: Result<i128, InformationError>)
    requires
        2 <= radix <= 36,
        minimum <= 0,
    ensures
        match spec_integer_in(raw@, radix as int, signed, minimum as int, maximum as int) {
            Some(v) => r matches Ok(x) && x == v,
            None => r == Err::<i128, InformationError>(InformationError::InvalidData),
        },
{
    match parse_integer(raw, radix, signed, minimum, maximum) {
        Some(v) => Ok(v),
        None => Err(invalid_data()),
    }
}

/// The value of a header line `name` followed by the value, if it is one.
pub open spec fn spec_header_value(line: Seq<u8>, name: Seq<u8>, radix: int, signed: bool, minimum: int, maximum: int) -> Option<int> {
    if line.len() >= name.len() && line.take(name.len() as int) == name {
        spec_integer_in(line.skip(name.len() as int), radix, signed, minimum, maximum)
    } else {
        None
    }
}

/// Reads the header line `name` followed by an integer in `radix` within
/// `minimum ..= maximum`.
pub fn parse_header_line(line: &[u8], name: &[u8], radix: u32, signed: bool, minimum: i64, maximum: u64) -> (r: Result<i128, InformationError>)
    requires
        2 <= radix <= 36,
        minimum <= 0,
    ensures
        match spec_header_value(line@, name@, radix as int, signed, minimum as int, maximum as int) {
            Some(v) => r matches Ok(x) && x == v,
            None => r == Err::<i128, InformationError>(InformationError::InvalidData),
        },
{
    if !starts_with(line, name) {
        return Err(invalid_data());
    }
    let raw = slice_subrange(line, name.len(), line.len());
    proof {
        assert(raw@ =~= line@.skip(name@.len() as int));
    }
    integer(raw, radix, signed, minimum, maximum)
}

/// `tfd: `
pub open spec fn tfd_prefix() -> Seq<u8> {
    seq![116u8, 102u8, 100u8, 58u8, 32u8]
}

/// ` events: `
pub open spec fn events_prefix() -> Seq<u8> {
    seq![32u8, 101u8, 118u8, 101u8, 110u8, 116u8, 115u8, 58u8, 32u8]
}

/// ` data: `
pub open spec fn data_prefix() -> Seq<u8> {
    seq![32u8, 100u8, 97u8, 116u8, 97u8, 58u8, 32u8]
}

/// `  pos:` (two spaces)
pub open spec fn position_prefix() -> Seq<u8> {
    seq![32u8, 32u8, 112u8, 111u8, 115u8, 58u8]
}

/// `ino:`
pub open spec fn inode_prefix() -> Seq<u8> {
    seq![105u8, 110u8, 111u8, 58u8]
}

/// `sdev:`
pub open spec fn sdevice_prefix() -> Seq<u8> {
    seq![115u8, 100u8, 101u8, 118u8, 58u8]
}

/// `pos:` and a tab
pub open spec fn offset_name() -> Seq<u8> {
    seq![112u8, 111u8, 115u8, 58u8, 9u8]
}

/// `flags:` and a tab
pub open spec fn flags_name() -> Seq<u8> {
    seq![102u8, 108u8, 97u8, 103u8, 115u8, 58u8, 9u8]
}

/// `mnt_id:` and a tab
pub open spec fn mount_name() -> Seq<u8> {
    seq![109u8, 110u8, 116u8, 95u8, 105u8, 100u8, 58u8, 9u8]
}

/// The registration that an fdinfo line such as
/// `tfd:        5 events:       19 data:                2  pos:0 ino:3b81 sdev:d`
/// describes: fixed-width fields, each value after leading spaces, then space-separated
/// fields, and nothing after them.
pub open spec fn spec_information_item(line: Seq<u8>) -> Option<EPollInformationItem> {
    match spec_fixed_width(line, tfd_prefix(), 8) {
        None => None,
        Some((raw_tfd, rest1)) => match spec_integer_in(trim_start(raw_tfd), 10, true, i32::MIN as int, i32::MAX as int) {
            None => None,
            Some(tfd) => match spec_fixed_width(rest1, events_prefix(), 8) {
                None => None,
                Some((raw_events, rest2)) => match spec_integer_in(trim_start(raw_events), 16, false, 0, u32::MAX as int) {
                    None => None,
                    Some(events) => match spec_fixed_width(rest2, data_prefix(), 16) {
                        None => None,
                        Some((raw_data, rest3)) => match spec_integer_in(trim_start(raw_data), 16, false, 0, u64::MAX as int) {
                            None => None,
                            Some(data) => match spec_space_terminated(rest3, position_prefix()) {
                                None => None,
                                Some((raw_position, rest4)) => match spec_integer_in(raw_position, 10, true, i64::MIN as int, i64::MAX as int) {
                                    None => None,
                                    Some(position) => match spec_space_terminated(rest4, inode_prefix()) {
                                        None => None,
                                        Some((raw_inode, rest5)) => match spec_integer_in(raw_inode, 16, true, i64::MIN as int, i64::MAX as int) {
                                            None => None,
                                            Some(inode) => match spec_space_terminated(rest5, sdevice_prefix()) {
                                                None => None,
                                                Some((raw_sdevice, rest6)) => match spec_integer_in(raw_sdevice, 16, false, 0, u32::MAX as int) {
                                                    None => None,
                                                    Some(sdevice) => if rest6.len() == 0 {
                                                        Some(EPollInformationItem {
                                                            target_file_descriptor: tfd as i32,
                                                            event_flags: events as u32,
                                                            token: data as u64,
                                                            position: position as i64,
                                                            inode: inode as i64,
                                                            sdevice: sdevice as u32,
                                                        })
                                                    } else {
                                                        None
                                                    },
                                                },
                                            },
                                        },
                                    },
                                },
                            },
                        },
                    },
                },
            },
        },
    }
}

impl EPollInformationItem {
    /// Reads one registration line of an epoll instance's fdinfo.
    pub fn parse(line: &[u8]) -> (r: Result<EPollInformationItem, InformationError>)
        ensures
            match spec_information_item(line@) {
                Some(item) => r == Ok::<EPollInformationItem, InformationError>(item),
                None => r == Err::<EPollInformationItem, InformationError>(InformationError::InvalidData),
            },
    {
        let tfd_name: Vec<u8> = vec![116u8, 102, 100, 58, 32];
        let events_name: Vec<u8> = vec![32u8, 101, 118, 101, 110, 116, 115, 58, 32];
        let data_name: Vec<u8> = vec![32u8, 100, 97, 116, 97, 58, 32];
        let position_name: Vec<u8> = vec![32u8, 32, 112, 111, 115, 58];
        let inode_name: Vec<u8> = vec![105u8, 110, 111, 58];
        let sdevice_name: Vec<u8> = vec![115u8, 100, 101, 118, 58];
        proof {
            assert(tfd_name@ =~= tfd_prefix());
            assert(events_name@ =~= events_prefix());
            assert(data_name@ =~= data_prefix());
            assert(position_name@ =~= position_prefix());
            assert(inode_name@ =~= inode_prefix());
            assert(sdevice_name@ =~= sdevice_prefix());
        }
        let (raw, rest) = extract_fixed_width_value_from_slice(line, tfd_name.as_slice(), 8)?;
        let tfd = integer(trim_start_slice(raw), 10, true, i32::MIN as i64, i32::MAX as u64)?;
        let (raw, rest) = extract_fixed_width_value_from_slice(rest, events_name.as_slice(), 8)?;
        let events = integer(trim_start_slice(raw), 16, false, 0, u32::MAX as u64)?;
        let (raw, rest) = extract_fixed_width_value_from_slice(rest, data_name.as_slice(), 16)?;
        let data = integer(trim_start_slice(raw), 16, false, 0, u64::MAX)?;
        let (raw, rest) = extract_space_terminated_value_from_slice(rest, position_name.as_slice())?;
        let position = integer(raw, 10, true, i64::MIN, i64::MAX as u64)?;
        let (raw, rest) = extract_space_terminated_value_from_slice(rest, inode_name.as_slice())?;
        let inode = integer(raw, 16, true, i64::MIN, i64::MAX as u64)?;
        let (raw, rest) = extract_space_terminated_value_from_slice(rest, sdevice_name.as_slice())?;
        let sdevice = integer(raw, 16, false, 0, u32::MAX as u64)?;
        if rest.len() != 0 {
            return Err(invalid_data());
        }
        Ok(
            EPollInformationItem {
                target_file_descriptor: tfd as i32,
                event_flags: events as u32,
                token: data as u64,
                position: position as i64,
                inode: inode as i64,
                sdevice: sdevice as u32,
            },
        )
    }
}

/// The header that the three header lines of an fdinfo file describe.
pub open spec fn spec_information_header(
    offset_line: Seq<u8>,
    flags_line: Seq<u8>,
    mount_line: Seq<u8>,
) -> Option<FileDescriptorInformationHeader> {
    match spec_header_value(offset_line, offset_name(), 10, true, i64::MIN as int, i64::MAX as int) {
        None => None,
        Some(offset) => match spec_header_value(flags_line, flags_name(), 8, false, 0, u32::MAX as int) {
            None => None,
            Some(flags) => match spec_header_value(mount_line, mount_name(), 16, false, 0, u64::MAX as int) {
                None => None,
                Some(mount) => Some(FileDescriptorInformationHeader {
                    file_offset: offset as i64,
                    file_flags: flags as u32,
                    mount_identifier: mount as u64,
                }),
            },
        },
    }
}

impl FileDescriptorInformationHeader {
    /// Reads the header from the `pos:`, `flags:` and `mnt_id:` lines, in that order.
    pub fn parse(offset_line: &[u8], flags_line: &[u8], mount_line: &[u8]) -> (r: Result<FileDescriptorInformationHeader, InformationError>)
        ensures
            match spec_information_header(offset_line@, flags_line@, mount_line@) {
                Some(header) => r == Ok::<FileDescriptorInformationHeader, InformationError>(header),
                None => r == Err::<FileDescriptorInformationHeader, InformationError>(InformationError::InvalidData),
            },
    {
        let offset_tag: Vec<u8> = vec![112u8, 111, 115, 58, 9];
        let flags_tag: Vec<u8> = vec![102u8, 108, 97, 103, 115, 58, 9];
        let mount_tag: Vec<u8> = vec![109u8, 110, 116, 95, 105, 100, 58, 9];
        proof {
            assert(offset_tag@ =~= offset_name());
            assert(flags_tag@ =~= flags_name());
            assert(mount_tag@ =~= mount_name());
        }
        let offset = parse_header_line(offset_line, offset_tag.as_slice(), 10, true, i64::MIN, i64::MAX as u64)?;
        let flags = parse_header_line(flags_line, flags_tag.as_slice(), 8, false, 0, u32::MAX as u64)?;
        let mount = parse_header_line(mount_line, mount_tag.as_slice(), 16, false, 0, u64::MAX)?;
        Ok(
            FileDescriptorInformationHeader {
                file_offset: offset as i64,
                file_flags: flags as u32,
                mount_identifier: mount as u64,
            },
        )
    }
}

} // verus!
