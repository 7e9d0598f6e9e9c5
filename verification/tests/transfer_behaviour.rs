use nxusb::client::{ClientCommandState, ReadState, WriteState};
use nxusb::errors::TransferError;
use nxusb::interface::ServerDevice;
use nxusb::prefixes::{ReadPrefix, WritePrefix};
use nxusb::server::{ReadCommandState, ServerCommandState, WriteCommandState};
use nxusb::test_impl::{TestFile, TestFileReader, TestFileStorer, TestFileWriter, TestUsbDevice};

/// Write path, end to end, with a block size that divides neither the name
/// nor the content: everything still arrives exactly.
#[test]
fn write_path_delivers_across_odd_blocks() {
    let name = b"fla".to_vec();
    let content = b"HelloWorld".to_vec();
    let prefix = WritePrefix {
        flags: 0x8000,
        file_name_length: 3,
        file_length: 10,
    };
    let local = TestFile::new(b"local".to_vec(), content.clone());
    let mut client = WriteState::<TestFile>::new_write(prefix, name.clone(), local).unwrap();
    let mut server =
        WriteCommandState::<TestFileWriter>::from_prefix(prefix, TestFileWriter::new());

    let mut block = vec![0u8; 7];
    while server.needs_input() {
        if client.needs_push() {
            client.push_block(&mut block).unwrap();
        } else {
            block = vec![0u8; 7];
        }
        server.input_block(&block).unwrap();
    }
    assert_eq!(server.file.name, name);
    assert_eq!(server.file.bytes, content);
}

/// Read path, end to end, with a 7-byte block: the 4-byte length field is
/// split against the content, and the client still reassembles both exactly.
#[test]
fn read_path_delivers_across_odd_blocks() {
    let content = b"HelloWorld".to_vec();
    let prefix = ReadPrefix {
        flags: 0,
        file_name_length: 3,
    };
    let store = TestFileReader::new(b"fla".to_vec(), content.clone());
    let mut server = ReadCommandState::<TestFileReader>::from_prefix(prefix, store);
    let mut client = ReadState::<TestFileStorer>::new_read(
        prefix,
        b"fla".to_vec(),
        b"out".to_vec(),
        TestFileStorer::new(),
    )
    .unwrap();

    let mut block = vec![0u8; 7];
    while client.needs_push() {
        client.push_block(&mut block).unwrap();
        server.input_block(&block).unwrap();
    }
    // The deliberate one-byte-short bound in needs_push leaves the name's
    // tail to the block already pushed above (3 bytes fit in one block).
    assert!(!server.needs_input());

    while server.needs_output() {
        server.output_block(&mut block).unwrap();
        if client.needs_pull() {
            client.pull_block(&block).unwrap();
        }
    }
    assert_eq!(client.file_size, 10);
    assert_eq!(client.store.bytes, content);
    assert_eq!(client.store.declared, 10);
}

/// A length field torn across two pulls is reassembled byte by byte.
#[test]
fn length_field_split_across_pulls() {
    let prefix = ReadPrefix {
        flags: 0,
        file_name_length: 1,
    };
    let mut client = ReadState::<TestFileStorer>::new_read(
        prefix,
        b"x".to_vec(),
        b"out".to_vec(),
        TestFileStorer::new(),
    )
    .unwrap();
    assert!(!client.needs_push());
    assert_eq!(client.pull_block(&[0, 0]), Ok(2));
    assert_eq!(client.file_size, 0);
    assert_eq!(client.pull_block(&[1, 4, b'a']), Ok(3));
    assert_eq!(client.file_size, 260);
    assert_eq!(client.store.bytes, vec![b'a']);
    assert!(client.needs_pull());
}

/// A single block carrying the last name byte and the first content bytes is
/// split correctly inside one call.
#[test]
fn boundary_split_within_one_block() {
    let prefix = WritePrefix {
        flags: 0x8000,
        file_name_length: 2,
        file_length: 2,
    };
    let mut server =
        WriteCommandState::<TestFileWriter>::from_prefix(prefix, TestFileWriter::new());
    assert_eq!(server.input_block(&[b'a']), Ok(1));
    assert!(!server.file.opened);
    assert_eq!(server.input_block(&[b'b', b'H', b'i']), Ok(2));
    assert_eq!(server.file.name, b"ab".to_vec());
    assert_eq!(server.file.bytes, b"Hi".to_vec());
    assert!(server.needs_input());
    assert_eq!(server.input_block(&[0u8; 4]), Ok(0));
    assert!(!server.needs_input());
}

/// Once a machine is done, every further call is a no-op returning 0.
#[test]
fn completion_is_idempotent() {
    // Responder write side.
    let wp = WritePrefix {
        flags: 0x8000,
        file_name_length: 2,
        file_length: 2,
    };
    let mut sw = WriteCommandState::<TestFileWriter>::from_prefix(wp, TestFileWriter::new());
    sw.input_block(&[b'a', b'b', b'H', b'i']).unwrap();
    sw.input_block(&[0u8; 4]).unwrap();
    assert!(!sw.needs_input() && !sw.needs_output());
    assert_eq!(sw.input_block(&[b'x', b'y', b'z']), Ok(0));
    assert_eq!(sw.input_block(&[]), Ok(0));
    let mut out = vec![0u8; 8];
    assert_eq!(sw.output_block(&mut out), Ok(0));
    let mut tiny = vec![0u8; 1];
    assert_eq!(sw.output_block(&mut tiny), Ok(0));
    assert_eq!(sw.file.bytes, b"Hi".to_vec());

    // Responder read side.
    let rp = ReadPrefix {
        flags: 0,
        file_name_length: 2,
    };
    let mut sr = ReadCommandState::<TestFileReader>::from_prefix(
        rp,
        TestFileReader::new(b"ab".to_vec(), b"Hi".to_vec()),
    );
    sr.input_block(&[b'a', b'b']).unwrap();
    let mut buf = vec![0u8; 16];
    sr.output_block(&mut buf).unwrap();
    assert!(!sr.needs_input() && !sr.needs_output());
    assert_eq!(sr.output_block(&mut buf), Ok(0));
    let mut tiny = vec![0u8; 1];
    assert_eq!(sr.output_block(&mut tiny), Ok(0));
    assert_eq!(sr.input_block(&[b'q']), Ok(0));

    // Initiator read side.
    let mut cr = ReadState::<TestFileStorer>::new_read(
        rp,
        b"ab".to_vec(),
        b"out".to_vec(),
        TestFileStorer::new(),
    )
    .unwrap();
    let mut blk = vec![0u8; 16];
    cr.push_block(&mut blk).unwrap();
    cr.pull_block(&[0, 0, 0, 2, b'H', b'i', 9, 9]).unwrap();
    assert!(!cr.needs_push() && !cr.needs_pull());
    assert_eq!(cr.pull_block(&[1, 2, 3]), Ok(0));
    assert_eq!(cr.push_block(&mut blk), Ok(0));
    assert_eq!(cr.store.bytes, b"Hi".to_vec());

    // Initiator write side.
    let mut cw = WriteState::<TestFile>::new_write(
        wp,
        b"ab".to_vec(),
        TestFile::new(b"l".to_vec(), b"Hi".to_vec()),
    )
    .unwrap();
    cw.push_block(&mut blk).unwrap();
    assert!(!cw.needs_push() && !cw.needs_pull());
    assert_eq!(cw.push_block(&mut blk), Ok(0));
    assert_eq!(cw.pull_block(&[1, 2, 3]), Ok(0));
}

#[test]
fn header_mismatch_on_construction() {
    let rp = ReadPrefix {
        flags: 0,
        file_name_length: 3,
    };
    let r = ReadState::<TestFileStorer>::new_read(
        rp,
        b"ab".to_vec(),
        b"out".to_vec(),
        TestFileStorer::new(),
    );
    assert_eq!(r.err(), Some(TransferError::HeaderMismatch));

    let wp = WritePrefix {
        flags: 0x8000,
        file_name_length: 2,
        file_length: 9,
    };
    let w = WriteState::<TestFile>::new_write(
        wp,
        b"ab".to_vec(),
        TestFile::new(b"l".to_vec(), b"Hi".to_vec()),
    );
    assert_eq!(w.err(), Some(TransferError::HeaderMismatch));
}

#[test]
fn malformed_name_bytes_are_rejected() {
    let rp = ReadPrefix {
        flags: 0,
        file_name_length: 2,
    };
    let mut sr = ReadCommandState::<TestFileReader>::from_prefix(
        rp,
        TestFileReader::new(b"ab".to_vec(), Vec::new()),
    );
    assert_eq!(
        sr.input_block(&[0xFF, 0xFE]),
        Err(TransferError::MalformedText)
    );

    // A well-formed two-byte character in one block is accepted...
    let mut ok = ReadCommandState::<TestFileReader>::from_prefix(
        rp,
        TestFileReader::new(vec![0xC3, 0xA9], Vec::new()),
    );
    assert_eq!(ok.input_block(&[0xC3, 0xA9]), Ok(2));
    // ...but the same character torn across two blocks is not: each block's
    // name fragment must spell valid text on its own.
    let mut torn = ReadCommandState::<TestFileReader>::from_prefix(
        rp,
        TestFileReader::new(vec![0xC3, 0xA9], Vec::new()),
    );
    assert_eq!(
        torn.input_block(&[0xC3]),
        Err(TransferError::MalformedText)
    );
}

#[test]
fn storage_failures_surface() {
    // The responder cannot find the requested file.
    let rp = ReadPrefix {
        flags: 0,
        file_name_length: 3,
    };
    let mut sr = ReadCommandState::<TestFileReader>::from_prefix(
        rp,
        TestFileReader::new(b"fla".to_vec(), b"Hello".to_vec()),
    );
    sr.input_block(&[b'x', b'y', b'z']).unwrap();
    let mut buf = vec![0u8; 16];
    assert_eq!(sr.output_block(&mut buf), Err(TransferError::StorageFailure));

    // The responder's write target already exists.
    let wp = WritePrefix {
        flags: 0x8000,
        file_name_length: 2,
        file_length: 2,
    };
    let mut existing = TestFileWriter::new();
    existing.exists = true;
    let mut sw = WriteCommandState::<TestFileWriter>::from_prefix(wp, existing);
    assert_eq!(
        sw.input_block(&[b'a', b'b', b'H', b'i']),
        Err(TransferError::StorageFailure)
    );

    // The initiator's local sink refuses to open.
    let mut refusing = TestFileStorer::new();
    refusing.refuse = true;
    let mut cr = ReadState::<TestFileStorer>::new_read(
        ReadPrefix {
            flags: 0,
            file_name_length: 1,
        },
        b"x".to_vec(),
        b"out".to_vec(),
        refusing,
    )
    .unwrap();
    assert_eq!(
        cr.pull_block(&[0, 0, 0, 2, b'H', b'i']),
        Err(TransferError::StorageFailure)
    );
}

#[test]
fn transport_failures_surface() {
    let mut dev = TestUsbDevice::empty();
    let mut small = vec![0u8; 10];
    assert_eq!(
        dev.read_block(&mut small),
        Err(TransferError::TransportFailure)
    );
    let mut fits = vec![0u8; 100];
    assert_eq!(
        dev.read_block(&mut fits),
        Err(TransferError::TransportFailure)
    );
    assert_eq!(
        dev.write_block(&[0u8; 55]),
        Err(TransferError::TransportFailure)
    );
    assert_eq!(dev.read_prefix().err(), Some(TransferError::TransportFailure));
}

/// A write command may carry no content at all: only the name crosses, and
/// the sink ends up open and empty.
#[test]
fn write_path_with_empty_content() {
    let prefix = WritePrefix {
        flags: 0x8000,
        file_name_length: 3,
        file_length: 0,
    };
    let local = TestFile::new(b"l".to_vec(), Vec::new());
    let mut client = WriteState::<TestFile>::new_write(prefix, b"fla".to_vec(), local).unwrap();
    let mut server =
        WriteCommandState::<TestFileWriter>::from_prefix(prefix, TestFileWriter::new());

    let mut block = vec![0u8; 8];
    while server.needs_input() {
        if client.needs_push() {
            client.push_block(&mut block).unwrap();
        } else {
            block = vec![0u8; 8];
        }
        server.input_block(&block).unwrap();
    }
    assert_eq!(server.file.name, b"fla".to_vec());
    assert_eq!(server.file.bytes, Vec::<u8>::new());
}

/// The longest name a header can declare still arrives whole.
#[test]
fn write_path_with_longest_name() {
    let name = vec![b'n'; 65535];
    let content = b"!".to_vec();
    let prefix = WritePrefix {
        flags: 0x8000,
        file_name_length: 65535,
        file_length: 1,
    };
    let local = TestFile::new(b"l".to_vec(), content.clone());
    let mut client = WriteState::<TestFile>::new_write(prefix, name.clone(), local).unwrap();
    let mut server =
        WriteCommandState::<TestFileWriter>::from_prefix(prefix, TestFileWriter::new());

    let mut block = vec![0u8; 100];
    while server.needs_input() {
        if client.needs_push() {
            client.push_block(&mut block).unwrap();
        } else {
            block = vec![0u8; 100];
        }
        server.input_block(&block).unwrap();
    }
    assert_eq!(server.file.name, name);
    assert_eq!(server.file.bytes, content);
}
