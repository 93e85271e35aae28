use file_descriptors::information::{
    extend_line, extract_fixed_width_value_from_slice, extract_space_terminated_value_from_slice,
    invalid_data, parse_header_line, EPollInformationItem, FileDescriptorInformationHeader,
    InformationError, MAXIMUM_BYTES_PER_LINE,
};
use file_descriptors::numbers::parse_integer;

#[test]
fn parses_registration_line() {
    let line = b"tfd:        5 events:       19 data:                2  pos:0 ino:3b81 sdev:d";
    let item = EPollInformationItem::parse(line).unwrap();
    assert_eq!(
        item,
        EPollInformationItem {
            target_file_descriptor: 5,
            event_flags: 0x19,
            token: 2,
            position: 0,
            inode: 0x3b81,
            sdevice: 0xd,
        }
    );
}

#[test]
fn parses_registration_line_with_wide_token() {
    let line = b"tfd:      123 events: 80000001 data: ffffffffffffffff  pos:-7 ino:-1 sdev:0";
    let item = EPollInformationItem::parse(line).unwrap();
    assert_eq!(item.target_file_descriptor, 123);
    assert_eq!(item.event_flags, 0x8000_0001);
    assert_eq!(item.token, u64::MAX);
    assert_eq!(item.position, -7);
    assert_eq!(item.inode, -1);
    assert_eq!(item.sdevice, 0);
}

#[test]
fn rejects_malformed_registration_lines() {
    let bad: [&[u8]; 5] = [
        b"",
        b"tfd:        5 events:       19 data:                2  pos:0 ino:3b81",
        b"tfd:        5 events:       19 data:                2  pos:0 ino:3b81 sdev:d extra",
        b"tfd:        x events:       19 data:                2  pos:0 ino:3b81 sdev:d",
        b"fd:        5 events:       19 data:                2  pos:0 ino:3b81 sdev:d",
    ];
    for line in bad.iter() {
        assert_eq!(EPollInformationItem::parse(line), Err(InformationError::InvalidData));
    }
}

#[test]
fn parses_header_lines() {
    let header = FileDescriptorInformationHeader::parse(b"pos:\t0", b"flags:\t02000002", b"mnt_id:\t15").unwrap();
    assert_eq!(
        header,
        FileDescriptorInformationHeader { file_offset: 0, file_flags: 0o2000002, mount_identifier: 0x15 }
    );
    assert_eq!(
        FileDescriptorInformationHeader::parse(b"pos:\t0", b"flags:\t9", b"mnt_id:\t15"),
        Err(InformationError::InvalidData)
    );
    assert_eq!(
        FileDescriptorInformationHeader::parse(b"pos: 0", b"flags:\t2", b"mnt_id:\t15"),
        Err(InformationError::InvalidData)
    );
}

#[test]
fn header_line_values() {
    assert_eq!(parse_header_line(b"pos:\t-12", b"pos:\t", 10, true, i64::MIN, i64::MAX as u64), Ok(-12));
    assert_eq!(parse_header_line(b"pos:\t", b"pos:\t", 10, true, i64::MIN, i64::MAX as u64), Err(invalid_data()));
    assert_eq!(parse_header_line(b"po", b"pos:\t", 10, true, i64::MIN, i64::MAX as u64), Err(invalid_data()));
}

#[test]
fn fixed_width_extraction() {
    let (value, rest) = extract_fixed_width_value_from_slice(b"tfd:    42 tail", b"tfd: ", 5).unwrap();
    assert_eq!(value, b"   42");
    assert_eq!(rest, b" tail");
    assert_eq!(extract_fixed_width_value_from_slice(b"tfd: 4", b"tfd: ", 5), Err(InformationError::InvalidData));
    assert_eq!(extract_fixed_width_value_from_slice(b"xfd:    42", b"tfd: ", 5), Err(InformationError::InvalidData));
}

#[test]
fn space_terminated_extraction() {
    let (value, rest) = extract_space_terminated_value_from_slice(b"ino:3b81 sdev:d", b"ino:").unwrap();
    assert_eq!(value, b"3b81");
    assert_eq!(rest, b"sdev:d");
    let (value, rest) = extract_space_terminated_value_from_slice(b"sdev:d", b"sdev:").unwrap();
    assert_eq!(value, b"d");
    assert_eq!(rest, b"");
    assert_eq!(extract_space_terminated_value_from_slice(b"ino", b"ino:"), Err(InformationError::InvalidData));
}

#[test]
fn integers_in_a_radix() {
    assert_eq!(parse_integer(b"ff", 16, false, 0, u64::MAX), Some(255));
    assert_eq!(parse_integer(b"FF", 16, false, 0, u64::MAX), Some(255));
    assert_eq!(parse_integer(b"+17", 8, false, 0, u64::MAX), Some(15));
    assert_eq!(parse_integer(b"-17", 10, false, 0, u64::MAX), None);
    assert_eq!(parse_integer(b"-17", 10, true, i64::MIN, i64::MAX as u64), Some(-17));
    assert_eq!(parse_integer(b"-", 10, true, i64::MIN, i64::MAX as u64), None);
    assert_eq!(parse_integer(b"", 10, false, 0, u64::MAX), None);
    assert_eq!(parse_integer(b"12a", 10, false, 0, u64::MAX), None);
    assert_eq!(parse_integer(b"18446744073709551615", 10, false, 0, u64::MAX), Some(u64::MAX as i128));
    assert_eq!(parse_integer(b"18446744073709551616", 10, false, 0, u64::MAX), None);
    assert_eq!(parse_integer(b"-9223372036854775808", 10, true, i64::MIN, i64::MAX as u64), Some(i64::MIN as i128));
    assert_eq!(parse_integer(b"-9223372036854775809", 10, true, i64::MIN, i64::MAX as u64), None);
    assert_eq!(parse_integer(b"4294967296", 10, false, 0, u32::MAX as u64), None);
    assert_eq!(parse_integer(b"2147483648", 10, true, i32::MIN as i64, i32::MAX as u64), None);
}

#[test]
fn line_length_is_bounded() {
    let mut line = vec![b'a'; MAXIMUM_BYTES_PER_LINE - 2];
    assert_eq!(extend_line(&mut line, b"bc"), Ok(()));
    assert_eq!(line.len(), MAXIMUM_BYTES_PER_LINE);
    assert_eq!(&line[MAXIMUM_BYTES_PER_LINE - 2..], b"bc");
    assert_eq!(extend_line(&mut line, b"d"), Err(InformationError::InvalidData));
    assert_eq!(line.len(), MAXIMUM_BYTES_PER_LINE);
}
