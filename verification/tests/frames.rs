// Frame types, big-endian words, and the bytes of command frames.

use sc64_link::local;
use sc64_link::remote;
use sc64_link::wire::{u32_from_be, u32_to_be};
use sc64_link::{Command, DataType, Error};

#[test]
fn frame_types_have_their_tags() {
    assert_eq!(u32::from(DataType::Command), 1);
    assert_eq!(u32::from(DataType::Response), 2);
    assert_eq!(u32::from(DataType::Packet), 3);
    assert_eq!(u32::from(DataType::KeepAlive), 0xCAFE_BEEF);
}

#[test]
fn frame_type_into_tag() {
    let tag: u32 = DataType::KeepAlive.into();
    assert_eq!(tag, 3_405_692_655);
}

#[test]
fn tags_name_their_frame_types() {
    assert_eq!(DataType::try_from(1), Ok(DataType::Command));
    assert_eq!(DataType::try_from(2), Ok(DataType::Response));
    assert_eq!(DataType::try_from(3), Ok(DataType::Packet));
    assert_eq!(DataType::try_from(0xCAFE_BEEF), Ok(DataType::KeepAlive));
}

#[test]
fn other_tags_name_nothing() {
    for tag in [0u32, 4, 5, 0xFF, 0x0100_0000, 0xCAFE_BEEE, 0xEFBE_FECA, u32::MAX] {
        assert_eq!(DataType::try_from(tag), Err(Error::UnknownDataType), "tag {tag:#x}");
    }
}

#[test]
fn tag_round_trip() {
    for data_type in [DataType::Command, DataType::Response, DataType::Packet, DataType::KeepAlive] {
        assert_eq!(DataType::try_from(u32::from(data_type)), Ok(data_type));
    }
}

#[test]
fn words_are_big_endian() {
    assert_eq!(u32_to_be(0x0102_0304), [1, 2, 3, 4]);
    assert_eq!(u32_to_be(0), [0, 0, 0, 0]);
    assert_eq!(u32_to_be(u32::MAX), [0xFF; 4]);
    assert_eq!(u32_to_be(0xCAFE_BEEF), [0xCA, 0xFE, 0xBE, 0xEF]);
    assert_eq!(u32_from_be(&[1, 2, 3, 4]), 0x0102_0304);
    assert_eq!(u32_from_be(&[0, 0, 1, 0]), 256);
    assert_eq!(u32_from_be(&[0xFF; 4]), u32::MAX);
}

#[test]
fn words_agree_with_the_standard_library() {
    for value in [0u32, 1, 0xFF, 0x100, 0xFFFF, 0x1_0000, 0x00FF_FFFF, 0x0100_0000, 0x8000_0000, 0xDEAD_BEEF] {
        assert_eq!(u32_to_be(value), value.to_be_bytes());
        assert_eq!(u32_from_be(&value.to_be_bytes()), value);
    }
}

#[test]
fn local_command_has_no_length() {
    let command = Command { id: 5, args: [0, 0], data: vec![] };
    assert_eq!(local::encode_command(&command), b"CMD\x05\0\0\0\0\0\0\0\0".to_vec());
    let command = Command { id: b'v', args: [0x1122_3344, 0x5566_7788], data: vec![9, 8, 7] };
    assert_eq!(
        local::encode_command(&command),
        vec![b'C', b'M', b'D', b'v', 0x11, 0x22, 0x33, 0x44, 0x55, 0x66, 0x77, 0x88, 9, 8, 7]
    );
}

#[test]
fn remote_command_has_tag_and_length() {
    let command = Command { id: 5, args: [0, 0], data: vec![] };
    assert_eq!(
        remote::encode_command(&command),
        vec![0, 0, 0, 1, 5, 0, 0, 0, 0, 0, 0, 0, 0, 0, 0, 0, 0]
    );
    let command = Command { id: b'v', args: [0x1122_3344, 0x5566_7788], data: vec![9; 300] };
    let frame = remote::encode_command(&command);
    assert_eq!(
        frame[..17],
        [0, 0, 0, 1, b'v', 0x11, 0x22, 0x33, 0x44, 0x55, 0x66, 0x77, 0x88, 0, 0, 1, 44]
    );
    assert_eq!(frame[17..], [9u8; 300]);
}

#[test]
fn the_framings_differ_only_in_tag_and_length() {
    let command = Command { id: 0xA5, args: [7, 0xFFFF_FFFF], data: vec![1, 2, 3, 4, 5] };
    let local = local::encode_command(&command);
    let remote = remote::encode_command(&command);
    assert_eq!(local.len(), 12 + 5);
    assert_eq!(remote.len(), 17 + 5);
    assert_eq!(local[3..12], remote[4..13]);
    assert_eq!(local[12..], remote[17..]);
}

#[test]
fn local_headers_are_read_by_their_token() {
    assert_eq!(
        local::parse_header(b"CMP\x05"),
        Ok(local::Header { packet: false, error: false, id: 5 })
    );
    assert_eq!(
        local::parse_header(b"PKT\x09"),
        Ok(local::Header { packet: true, error: false, id: 9 })
    );
    assert_eq!(
        local::parse_header(b"ERR\xFF"),
        Ok(local::Header { packet: false, error: true, id: 255 })
    );
}

#[test]
fn other_tokens_are_refused() {
    for header in [b"CMD\x05", b"cmp\x05", b"PKE\x05", b"ERP\x05", b"\0\0\0\0", b"CPM\x05", b"XMP\x05"] {
        assert_eq!(local::parse_header(header), Err(Error::UnknownResponseToken));
    }
}
