use nxusb::interface::ServerDevice;
use nxusb::prefixes::{ReadPrefix, WritePrefix};
use nxusb::server::{ReadCommandState, ServerCommandState, WriteCommandState};
use nxusb::test_impl::{TestFileReader, TestFileWriter, TestUsbDevice, TEST_BLOCK_SIZE};

#[test]
fn mod_test_read_file() {
    let file = vec![b'H', b'e', b'l', b'l', b'o'];

    let mut usb_ctx = TestUsbDevice::empty();
    usb_ctx.push_input(&[b'f', b'l', b'a']);
    usb_ctx.push_input(&[0; 100]);

    let mut test_read_buffer = vec![0u8; TEST_BLOCK_SIZE];
    let mut test_write_buffer = vec![0u8; TEST_BLOCK_SIZE];
    let read_prefix = ReadPrefix {
        flags: 0,
        file_name_length: 3,
    };
    let store = TestFileReader::new("fla".as_bytes().to_vec(), file.clone());
    let mut read_command = ReadCommandState::<TestFileReader>::from_prefix(read_prefix, store);

    while read_command.needs_input() || read_command.needs_output() {
        if read_command.needs_input() {
            let _blk = usb_ctx.read_block(&mut test_read_buffer).unwrap();
            let _read = read_command.input_block(&test_read_buffer).unwrap();
        }
        if read_command.needs_output() {
            let _written = read_command.output_block(&mut test_write_buffer).unwrap();
            let _blk = usb_ctx.write_block(&test_write_buffer).unwrap();
        }
    }
    assert!(usb_ctx.input_buf.clone().into_iter().all(|a| a == 0));
    assert_eq!(usb_ctx.pull_output(4), vec![0, 0, 0, 5]);
    assert_eq!(usb_ctx.pull_output(5), file);
}

#[test]
fn mod_test_write_file() {
    let name = vec![b'f', b'l', b'a'];
    let file = vec![b'H', b'e', b'l', b'l', b'o'];

    let mut usb_ctx = TestUsbDevice::empty();
    usb_ctx.push_input(&name);
    usb_ctx.push_input(&file);
    usb_ctx.push_input(&[0; 100]);
    usb_ctx.push_input(&[0; 100]);
    usb_ctx.push_input(&[0; 100]);

    let mut test_read_buffer = vec![0u8; TEST_BLOCK_SIZE];
    let mut test_write_buffer = vec![0u8; TEST_BLOCK_SIZE];
    let write_prefix = WritePrefix {
        flags: 0b1000000000000000,
        file_name_length: 3,
        file_length: 5,
    };
    let mut write_command =
        WriteCommandState::<TestFileWriter>::from_prefix(write_prefix, TestFileWriter::new());

    while write_command.needs_input() || write_command.needs_output() {
        if write_command.needs_input() {
            let _blk = usb_ctx.read_block(&mut test_read_buffer).unwrap();
            let _write = write_command.input_block(&test_read_buffer).unwrap();
        }
        if write_command.needs_output() {
            let _written = write_command.output_block(&mut test_write_buffer).unwrap();
            let _blk = usb_ctx.write_block(&test_write_buffer).unwrap();
        }
    }

    let written_fl = &write_command.file;
    assert_eq!(written_fl.name, name);
    assert_eq!(written_fl.bytes, file);
    assert!(usb_ctx.input_buf.into_iter().all(|a| a == 0));
    assert!(usb_ctx.output_buf.is_empty());
}
