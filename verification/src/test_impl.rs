use crate::bytes::{append_from_slice, bytes_eq, copy_bytes};
use crate::errors::TransferError;
use crate::interface::{ClientDevice, ServerDevice};
use crate::prefixes::{CommandPrefix, Prefixes, PREFIX_LENGTH};
use crate::storage::{FileContentStorer, FileReader, FileRetriever, FileWriter};
use vstd::array::array_as_slice;
use vstd::pervasive::VecAdditionalExecFns;
use vstd::prelude::*;

verus! {

// In-memory doubles for the storage and transport collaborators. Each one
// owns its bytes outright — a test builds the store it wants, threads it
// through a constructor, and inspects the fields afterwards; there is no
// ambient state anywhere.

/// The block size every in-memory transport uses.
pub const TEST_BLOCK_SIZE: usize = 100;

// --- initiator-side storage doubles ----------------------------------------

/// An in-memory local file for the initiator to send: a name and its bytes,
/// read through a cursor.
pub struct TestFile {
    pub name: Vec<u8>,
    pub bytes: Vec<u8>,
    pub read_idx: usize,
}

impl TestFile {
    /// A file with the given name and content, cursor at the start.
    pub fn new(name: Vec<u8>, bytes: Vec<u8>) -> (r: Self)
        ensures
            r.name_spec() == name@,
            r.content() == bytes@,
            r.pos() == 0,
    {
        TestFile { name, bytes, read_idx: 0 }
    }
}

impl FileRetriever for TestFile {
    open spec fn name_spec(&self) -> Seq<u8> {
        self.name@
    }

    open spec fn content(&self) -> Seq<u8> {
        self.bytes@
    }

    open spec fn pos(&self) -> int {
        self.read_idx as int
    }

    fn name(&self) -> (r: &Vec<u8>) {
        &self.name
    }

    fn len(&self) -> (r: usize) {
        self.bytes.len()
    }

    fn read_bytes(&mut self, buffer: &mut Vec<u8>, offset: usize) -> (r: Result<
        usize,
        TransferError,
    >) {
        let space = buffer.len() - offset;
        let remaining = self.bytes.len() - self.read_idx;
        let n = if space < remaining {
            space
        } else {
            remaining
        };
        let mut i: usize = 0;
        while i < n
            invariant
                *self == *old(self),
                i <= n,
                offset + n <= buffer.len(),
                self.read_idx + n <= self.bytes.len(),
                buffer.len() == old(buffer).len(),
                forall|j: int|
                    offset <= j < offset + i ==> buffer@[j] == old(self).bytes@[
                        old(self).read_idx + (j - offset)
                    ],
                forall|j: int|
                    0 <= j < buffer@.len() && !(offset <= j < offset + i) ==> buffer@[j] == old(
                        buffer,
                    )@[j],
            decreases n - i,
        {
            buffer.set(offset + i, self.bytes[self.read_idx + i]);
            i = i + 1;
        }
        self.read_idx = self.read_idx + n;
        proof {
            assert(buffer@.subrange(offset as int, offset + n) =~= old(self).bytes@.subrange(
                old(self).read_idx as int,
                old(self).read_idx + n,
            ));
        }
        Ok(n)
    }
}

/// An in-memory sink for content the initiator pulls down: remembers the
/// name and declared size it was opened with and accumulates the bytes.
/// Setting `refuse` makes the next open fail, like an unwritable target.
pub struct TestFileStorer {
    pub name: Vec<u8>,
    pub declared: u64,
    pub bytes: Vec<u8>,
    pub opened: bool,
    pub refuse: bool,
}

impl TestFileStorer {
    /// A fresh, unopened, accepting sink.
    pub fn new() -> (r: Self)
        ensures
            !r.ready(),
            !r.refuse,
    {
        TestFileStorer {
            name: Vec::new(),
            declared: 0,
            bytes: Vec::new(),
            opened: false,
            refuse: false,
        }
    }
}

impl FileContentStorer for TestFileStorer {
    open spec fn ready(&self) -> bool {
        self.opened
    }

    open spec fn opened_name(&self) -> Seq<u8> {
        self.name@
    }

    open spec fn declared(&self) -> int {
        self.declared as int
    }

    open spec fn sunk(&self) -> Seq<u8> {
        self.bytes@
    }

    fn for_name(&mut self, name: &Vec<u8>, size: u64) -> (r: Result<(), TransferError>) {
        if self.refuse {
            return Err(TransferError::StorageFailure);
        }
        self.name = copy_bytes(name.as_slice());
        self.declared = size;
        self.bytes = Vec::new();
        self.opened = true;
        Ok(())
    }

    fn push_bytes(&mut self, buffer: &[u8]) -> (r: Result<usize, TransferError>) {
        append_from_slice(&mut self.bytes, buffer, 0, buffer.len());
        proof {
            assert(buffer@.subrange(0, buffer@.len() as int) =~= buffer@.take(
                buffer@.len() as int,
            ));
        }
        Ok(buffer.len())
    }
}

// --- responder-side storage doubles ----------------------------------------

/// An in-memory file store with a single file for the responder to serve:
/// opening succeeds exactly when the requested name matches.
pub struct TestFileReader {
    pub expected_name: Vec<u8>,
    pub bytes: Vec<u8>,
    pub read_idx: usize,
    pub opened: bool,
}

impl TestFileReader {
    /// A store holding one file under the given name.
    pub fn new(expected_name: Vec<u8>, bytes: Vec<u8>) -> (r: Self)
        ensures
            !r.ready(),
            r.content() == bytes@,
    {
        TestFileReader { expected_name, bytes, read_idx: 0, opened: false }
    }
}

impl FileReader for TestFileReader {
    open spec fn ready(&self) -> bool {
        self.opened
    }

    open spec fn content(&self) -> Seq<u8> {
        self.bytes@
    }

    open spec fn pos(&self) -> int {
        self.read_idx as int
    }

    fn open(&mut self, file_name: &Vec<u8>) -> (r: Result<(), TransferError>) {
        if bytes_eq(file_name.as_slice(), self.expected_name.as_slice()) {
            self.read_idx = 0;
            self.opened = true;
            Ok(())
        } else {
            Err(TransferError::StorageFailure)
        }
    }

    fn len(&self) -> (r: usize) {
        self.bytes.len()
    }

    fn read_bytes(&mut self, buffer: &mut Vec<u8>, offset: usize) -> (r: Result<
        usize,
        TransferError,
    >) {
        let space = buffer.len() - offset;
        let remaining = self.bytes.len() - self.read_idx;
        let n = if space < remaining {
            space
        } else {
            remaining
        };
        let mut i: usize = 0;
        while i < n
            invariant
                *self == *old(self),
                i <= n,
                offset + n <= buffer.len(),
                self.read_idx + n <= self.bytes.len(),
                buffer.len() == old(buffer).len(),
                forall|j: int|
                    offset <= j < offset + i ==> buffer@[j] == old(self).bytes@[
                        old(self).read_idx + (j - offset)
                    ],
                forall|j: int|
                    0 <= j < buffer@.len() && !(offset <= j < offset + i) ==> buffer@[j] == old(
                        buffer,
                    )@[j],
            decreases n - i,
        {
            buffer.set(offset + i, self.bytes[self.read_idx + i]);
            i = i + 1;
        }
        self.read_idx = self.read_idx + n;
        proof {
            assert(buffer@.subrange(offset as int, offset + n) =~= old(self).bytes@.subrange(
                old(self).read_idx as int,
                old(self).read_idx + n,
            ));
        }
        Ok(n)
    }
}

/// An in-memory sink for content the responder receives. Setting `exists`
/// makes the open fail, like a target that is already present.
pub struct TestFileWriter {
    pub name: Vec<u8>,
    pub bytes: Vec<u8>,
    pub opened: bool,
    pub exists: bool,
}

impl TestFileWriter {
    /// A fresh, unopened sink whose target does not exist yet.
    pub fn new() -> (r: Self)
        ensures
            !r.ready(),
            !r.exists,
    {
        TestFileWriter { name: Vec::new(), bytes: Vec::new(), opened: false, exists: false }
    }
}

impl FileWriter for TestFileWriter {
    open spec fn ready(&self) -> bool {
        self.opened
    }

    open spec fn opened_name(&self) -> Seq<u8> {
        self.name@
    }

    open spec fn sunk(&self) -> Seq<u8> {
        self.bytes@
    }

    fn open(&mut self, file_name: &Vec<u8>) -> (r: Result<(), TransferError>) {
        if self.exists {
            return Err(TransferError::StorageFailure);
        }
        self.name = copy_bytes(file_name.as_slice());
        self.bytes = Vec::new();
        self.opened = true;
        Ok(())
    }

    fn write_bytes(&mut self, buffer: &[u8]) -> (r: Result<usize, TransferError>) {
        append_from_slice(&mut self.bytes, buffer, 0, buffer.len());
        proof {
            assert(buffer@.subrange(0, buffer@.len() as int) =~= buffer@.take(
                buffer@.len() as int,
            ));
        }
        Ok(buffer.len())
    }
}

// --- the transport double --------------------------------------------------

/// An in-memory transport whose two byte queues a test can fill and drain
/// directly. It serves as either side's device.
pub struct TestUsbDevice {
    pub input_buf: Vec<u8>,
    pub output_buf: Vec<u8>,
}

impl TestUsbDevice {
    /// A device with empty queues.
    pub fn empty() -> (r: TestUsbDevice)
        ensures
            r.input_buf@ == Seq::<u8>::empty(),
            r.output_buf@ == Seq::<u8>::empty(),
    {
        TestUsbDevice { input_buf: Vec::new(), output_buf: Vec::new() }
    }

    /// Appends bytes to the incoming queue.
    pub fn push_input(&mut self, input_bytes: &[u8])
        ensures
            final(self).input_buf@ == old(self).input_buf@ + input_bytes@,
            final(self).output_buf@ == old(self).output_buf@,
    {
        append_from_slice(&mut self.input_buf, input_bytes, 0, input_bytes.len());
        proof {
            assert(input_bytes@.subrange(0, input_bytes@.len() as int) =~= input_bytes@);
        }
    }

    /// Takes the first `count` bytes off the incoming queue.
    pub fn pull_input(&mut self, count: usize) -> (r: Vec<u8>)
        requires
            count <= old(self).input_buf@.len(),
        ensures
            r@ == old(self).input_buf@.take(count as int),
            final(self).input_buf@ == old(self).input_buf@.skip(count as int),
            final(self).output_buf@ == old(self).output_buf@,
    {
        let mut taken: Vec<u8> = Vec::new();
        append_from_slice(&mut taken, self.input_buf.as_slice(), 0, count);
        let mut rest: Vec<u8> = Vec::new();
        append_from_slice(&mut rest, self.input_buf.as_slice(), count, self.input_buf.len());
        self.input_buf = rest;
        proof {
            assert(taken@ =~= old(self).input_buf@.take(count as int));
            assert(self.input_buf@ =~= old(self).input_buf@.skip(count as int));
        }
        taken
    }

    /// Appends bytes to the outgoing queue.
    pub fn push_output(&mut self, output_bytes: &[u8])
        ensures
            final(self).output_buf@ == old(self).output_buf@ + output_bytes@,
            final(self).input_buf@ == old(self).input_buf@,
    {
        append_from_slice(&mut self.output_buf, output_bytes, 0, output_bytes.len());
        proof {
            assert(output_bytes@.subrange(0, output_bytes@.len() as int) =~= output_bytes@);
        }
    }

    /// Takes the first `count` bytes off the outgoing queue.
    pub fn pull_output(&mut self, count: usize) -> (r: Vec<u8>)
        requires
            count <= old(self).output_buf@.len(),
        ensures
            r@ == old(self).output_buf@.take(count as int),
            final(self).output_buf@ == old(self).output_buf@.skip(count as int),
            final(self).input_buf@ == old(self).input_buf@,
    {
        let mut taken: Vec<u8> = Vec::new();
        append_from_slice(&mut taken, self.output_buf.as_slice(), 0, count);
        let mut rest: Vec<u8> = Vec::new();
        append_from_slice(&mut rest, self.output_buf.as_slice(), count, self.output_buf.len());
        self.output_buf = rest;
        proof {
            assert(taken@ =~= old(self).output_buf@.take(count as int));
            assert(self.output_buf@ =~= old(self).output_buf@.skip(count as int));
        }
        taken
    }
}

impl ClientDevice for TestUsbDevice {
    open spec fn block_size_spec(&self) -> int {
        TEST_BLOCK_SIZE as int
    }

    open spec fn incoming(&self) -> Seq<u8> {
        self.input_buf@
    }

    open spec fn outgoing(&self) -> Seq<u8> {
        self.output_buf@
    }

    fn push_prefix(&mut self, prefix: Prefixes) -> (r: Result<usize, TransferError>) {
        let bts = prefix.serialize();
        append_from_slice(&mut self.output_buf, array_as_slice(&bts), 0, PREFIX_LENGTH);
        proof {
            assert(bts@.subrange(0, PREFIX_LENGTH as int) =~= prefix.spec_serial());
        }
        Ok(PREFIX_LENGTH)
    }

    fn block_size(&self) -> (r: usize) {
        TEST_BLOCK_SIZE
    }

    fn pull_block(&mut self, buffer: &mut Vec<u8>) -> (r: Result<usize, TransferError>) {
        if buffer.len() < TEST_BLOCK_SIZE {
            return Err(TransferError::TransportFailure);
        }
        if self.input_buf.len() < TEST_BLOCK_SIZE {
            return Err(TransferError::TransportFailure);
        }
        let bts = self.pull_input(TEST_BLOCK_SIZE);
        let mut idx: usize = 0;
        while idx < TEST_BLOCK_SIZE
            invariant
                idx <= TEST_BLOCK_SIZE,
                bts@.len() == TEST_BLOCK_SIZE,
                TEST_BLOCK_SIZE <= buffer.len(),
                buffer.len() == old(buffer).len(),
                forall|j: int| 0 <= j < idx ==> buffer@[j] == bts@[j],
                forall|j: int| idx <= j < buffer@.len() ==> buffer@[j] == old(buffer)@[j],
            decreases TEST_BLOCK_SIZE - idx,
        {
            buffer.set(idx, bts[idx]);
            idx = idx + 1;
        }
        proof {
            assert(buffer@.take(TEST_BLOCK_SIZE as int) =~= bts@);
        }
        Ok(TEST_BLOCK_SIZE)
    }

    fn push_block(&mut self, bytes: &[u8]) -> (r: Result<usize, TransferError>) {
        if bytes.len() != TEST_BLOCK_SIZE {
            return Err(TransferError::TransportFailure);
        }
        self.push_output(bytes);
        Ok(bytes.len())
    }
}

impl ServerDevice for TestUsbDevice {
    open spec fn block_size_spec(&self) -> int {
        TEST_BLOCK_SIZE as int
    }

    open spec fn incoming(&self) -> Seq<u8> {
        self.input_buf@
    }

    open spec fn outgoing(&self) -> Seq<u8> {
        self.output_buf@
    }

    fn read_prefix(&mut self) -> (r: Result<Prefixes, TransferError>) {
        if self.input_buf.len() < PREFIX_LENGTH {
            return Err(TransferError::TransportFailure);
        }
        let prefix_bytes = self.pull_input(PREFIX_LENGTH);
        let mut prefix_buffer: [u8; 8] = [0, 0, 0, 0, 0, 0, 0, 0];
        let mut idx: usize = 0;
        while idx < PREFIX_LENGTH
            invariant
                idx <= PREFIX_LENGTH,
                prefix_bytes@.len() == PREFIX_LENGTH,
                forall|j: int| 0 <= j < idx ==> prefix_buffer@[j] == prefix_bytes@[j],
            decreases PREFIX_LENGTH - idx,
        {
            prefix_buffer[idx] = prefix_bytes[idx];
            idx = idx + 1;
        }
        proof {
            assert(prefix_buffer@ =~= prefix_bytes@);
        }
        match Prefixes::parse_prefix(prefix_buffer) {
            Some(p) => Ok(p),
            None => {
                // Every 8-byte buffer parses to one of the two shapes, so
                // this arm cannot be reached.
                proof {
                    assert(false);
                }
                Err(TransferError::TransportFailure)
            },
        }
    }

    fn block_size(&self) -> (r: usize) {
        TEST_BLOCK_SIZE
    }

    fn read_block(&mut self, buffer: &mut Vec<u8>) -> (r: Result<usize, TransferError>) {
        if buffer.len() < TEST_BLOCK_SIZE {
            return Err(TransferError::TransportFailure);
        }
        if self.input_buf.len() < TEST_BLOCK_SIZE {
            return Err(TransferError::TransportFailure);
        }
        let bts = self.pull_input(TEST_BLOCK_SIZE);
        let mut idx: usize = 0;
        while idx < TEST_BLOCK_SIZE
            invariant
                idx <= TEST_BLOCK_SIZE,
                bts@.len() == TEST_BLOCK_SIZE,
                TEST_BLOCK_SIZE <= buffer.len(),
                buffer.len() == old(buffer).len(),
                forall|j: int| 0 <= j < idx ==> buffer@[j] == bts@[j],
                forall|j: int| idx <= j < buffer@.len() ==> buffer@[j] == old(buffer)@[j],
            decreases TEST_BLOCK_SIZE - idx,
        {
            buffer.set(idx, bts[idx]);
            idx = idx + 1;
        }
        proof {
            assert(buffer@.take(TEST_BLOCK_SIZE as int) =~= bts@);
        }
        Ok(TEST_BLOCK_SIZE)
    }

    fn write_block(&mut self, bytes: &[u8]) -> (r: Result<usize, TransferError>) {
        if bytes.len() != TEST_BLOCK_SIZE {
            return Err(TransferError::TransportFailure);
        }
        self.push_output(bytes);
        Ok(bytes.len())
    }
}

} // verus!
