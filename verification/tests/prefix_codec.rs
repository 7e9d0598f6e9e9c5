use nxusb::interface::{ClientDevice, ServerDevice};
use nxusb::prefixes::{CommandPrefix, Prefixes, ReadPrefix, WritePrefix, PREFIX_LENGTH};
use nxusb::test_impl::TestUsbDevice;

#[test]
fn test_read_prefix_pushing() {
    let expected: [u8; PREFIX_LENGTH] = [0x0, 0x0, 0x0, 0x10, 0x0, 0x0, 0x0, 0x0];
    let prefix = ReadPrefix {
        flags: 0,
        file_name_length: 16,
    };
    let mut usb_ctx = TestUsbDevice::empty();
    usb_ctx.push_prefix(Prefixes::Read(prefix)).unwrap();
    let actual = &usb_ctx.output_buf[0..PREFIX_LENGTH];
    assert_eq!(&expected, &actual);
}

#[test]
fn test_write_prefix_pushing() {
    let prefix = WritePrefix {
        flags: 0b1010101010101010,
        file_name_length: 16,
        file_length: 4096,
    };
    let expected: [u8; PREFIX_LENGTH] =
        [0b10101010, 0b10101010, 0x00, 0x10, 0x00, 0x00, 0x10, 0x00];
    let mut usb_ctx = TestUsbDevice::empty();
    usb_ctx.push_prefix(Prefixes::Write(prefix)).unwrap();
    let actual = &usb_ctx.output_buf[0..PREFIX_LENGTH];
    assert_eq!(&expected, actual);
}

#[test]
fn test_read_prefix_parsing() {
    let expected = ReadPrefix {
        flags: 0,
        file_name_length: 16,
    };
    let bts: [u8; PREFIX_LENGTH] = [0x0, 0x0, 0x0, 0x10, 0x0, 0x0, 0x0, 0x0];
    let mut usb_ctx = TestUsbDevice::empty();
    usb_ctx.push_input(&bts);
    let wrapped_actual = usb_ctx.read_prefix().unwrap();
    match wrapped_actual {
        Prefixes::Read(a) => {
            assert_eq!(expected, a);
        }
        Prefixes::Write(a) => {
            panic!(
                "Got write prefix in read test: {:?} instead of expected {:?}.",
                a, expected
            );
        }
    }
}

#[test]
fn test_write_prefix_parsing() {
    let expected = WritePrefix {
        flags: 0b1010101010101010,
        file_name_length: 16,
        file_length: 4096,
    };
    let bts: [u8; PREFIX_LENGTH] = [0b10101010, 0b10101010, 0x00, 0x10, 0x00, 0x00, 0x10, 0x00];
    let mut usb_ctx = TestUsbDevice::empty();
    usb_ctx.push_input(&bts);
    let wrapped_actual = usb_ctx.read_prefix().unwrap();
    match wrapped_actual {
        Prefixes::Write(a) => {
            assert_eq!(expected, a);
        }
        Prefixes::Read(a) => {
            panic!(
                "Got read prefix in write test: {:?} instead of expected {:?}.",
                a, expected
            );
        }
    }
}

#[test]
fn round_trip_read_header() {
    let prefix = ReadPrefix {
        flags: 0x1234,
        file_name_length: 7,
    };
    let bytes = prefix.serialize();
    assert_eq!(ReadPrefix::parse_prefix(bytes), Some(prefix));
    assert_eq!(
        Prefixes::parse_prefix(bytes),
        Some(Prefixes::Read(prefix))
    );
}

#[test]
fn round_trip_write_header() {
    let prefix = WritePrefix {
        flags: 0x8001,
        file_name_length: 300,
        file_length: 0xDEADBEEF,
    };
    let bytes = prefix.serialize();
    assert_eq!(WritePrefix::parse_prefix(bytes), Some(prefix));
    assert_eq!(
        Prefixes::parse_prefix(bytes),
        Some(Prefixes::Write(prefix))
    );
}

#[test]
fn discriminator_is_bit_seven_of_byte_zero() {
    let low: [u8; PREFIX_LENGTH] = [0x7F, 0xFF, 0x12, 0x34, 0x56, 0x78, 0x9A, 0xBC];
    let high: [u8; PREFIX_LENGTH] = [0x80, 0x00, 0x12, 0x34, 0x56, 0x78, 0x9A, 0xBC];
    assert!(matches!(
        Prefixes::parse_prefix(low),
        Some(Prefixes::Read(_))
    ));
    assert!(matches!(
        Prefixes::parse_prefix(high),
        Some(Prefixes::Write(_))
    ));
    assert!(ReadPrefix::parse_prefix(high).is_none());
    assert!(WritePrefix::parse_prefix(low).is_none());
}

#[test]
fn serialized_fields_are_big_endian() {
    let prefix = WritePrefix {
        flags: 0x8000,
        file_name_length: 0x0102,
        file_length: 0x01020304,
    };
    let bytes = prefix.serialize();
    assert_eq!(bytes, [0x80, 0x00, 0x01, 0x02, 0x01, 0x02, 0x03, 0x04]);
}
