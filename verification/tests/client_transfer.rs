use nxusb::client::{ClientCommandState, ReadState, WriteState};
use nxusb::interface::ClientDevice;
use nxusb::prefixes::{Prefixes, ReadPrefix, WritePrefix};
use nxusb::test_impl::{TestFile, TestFileStorer, TestUsbDevice, TEST_BLOCK_SIZE};

#[test]
fn test_read_file() {
    let mut test_read_buffer = vec![0u8; TEST_BLOCK_SIZE];
    let mut test_write_buffer = vec![0u8; TEST_BLOCK_SIZE];
    let mut usb_ctx = TestUsbDevice::empty();
    let read_prefix = ReadPrefix {
        flags: 0,
        file_name_length: 3,
    };
    usb_ctx.push_prefix(Prefixes::Read(read_prefix)).unwrap();
    let mut read_state = ReadState::<TestFileStorer>::new_read(
        read_prefix,
        "fla".as_bytes().to_vec(),
        "fla_out".as_bytes().to_vec(),
        TestFileStorer::new(),
    )
    .unwrap();
    usb_ctx.push_input(&[0, 0, 0, 5, b'H', b'e', b'l', b'l', b'o']);
    assert_eq!(9, usb_ctx.input_buf.len());
    usb_ctx.input_buf.resize(10000, 0);
    assert_eq!(10000, usb_ctx.input_buf.len());
    while read_state.needs_push() || read_state.needs_pull() {
        if read_state.needs_pull() {
            let _blk = usb_ctx.pull_block(&mut test_read_buffer).unwrap();
            let _write = read_state.pull_block(&test_read_buffer).unwrap();
        }
        if read_state.needs_push() {
            let _written = read_state.push_block(&mut test_write_buffer).unwrap();
            let _blk = usb_ctx.push_block(&test_write_buffer).unwrap();
        }
    }
    let read_content = &read_state.store.bytes;
    assert_eq!(read_content, &vec![b'H', b'e', b'l', b'l', b'o']);
}

#[test]
fn test_write_file() {
    let name = vec![b'f', b'l', b'a'];
    let file = vec![b'H', b'e', b'l', b'l', b'o'];

    let mut usb_ctx = TestUsbDevice::empty();
    let mut test_write_buffer = vec![0u8; TEST_BLOCK_SIZE];
    let write_prefix = WritePrefix {
        flags: 0b1000000000000000,
        file_name_length: 3,
        file_length: 5,
    };
    let local = TestFile::new("fla".as_bytes().to_vec(), file.clone());
    let mut write_state =
        WriteState::<TestFile>::new_write(write_prefix, name.clone(), local).unwrap();
    usb_ctx.push_prefix(Prefixes::Write(write_prefix)).unwrap();

    while write_state.needs_push() || write_state.needs_pull() {
        if write_state.needs_push() {
            let _written = write_state.push_block(&mut test_write_buffer).unwrap();
            let _blk = usb_ctx.push_block(&test_write_buffer).unwrap();
        }
        if write_state.needs_pull() {
            unreachable!("write transfers never pull");
        }
    }

    // One header and one block went out: the block opens with the name
    // followed immediately by the content, no length field between them.
    let header = usb_ctx.pull_output(8);
    assert_eq!(header, vec![0x80, 0x00, 0x00, 0x03, 0x00, 0x00, 0x00, 0x05]);
    let body = usb_ctx.pull_output(8);
    assert_eq!(body, vec![b'f', b'l', b'a', b'H', b'e', b'l', b'l', b'o']);
    assert!(usb_ctx.output_buf.len() == TEST_BLOCK_SIZE - 8);
    assert!(usb_ctx.output_buf.iter().all(|a| *a == 0));
}
