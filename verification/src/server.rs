use crate::bytes::append_from_slice;
use crate::errors::TransferError;
use crate::lengths::len32;
use crate::prefixes::{CommandPrefix, Prefixes, ReadPrefix, WritePrefix};
use crate::storage::{FileReader, FileWriter};
use crate::text::{is_text, utf8_check};
use vstd::math::min;
use vstd::pervasive::VecAdditionalExecFns;
use vstd::prelude::*;
use vstd::slice::slice_subrange;

verus! {

/// One side of a responder session: a command that alternately consumes
/// transport blocks and produces them until it is done.
///
/// Each implementor fixes its own well-formedness invariant and its exact
/// transition relations as spec functions; the executable methods are proved
/// against those. Once a command reports neither `needs_input` nor
/// `needs_output`, every further call is a no-op that returns `Ok(0)`.
pub trait ServerCommandState<T: CommandPrefix>: Sized {
    /// The structural invariant every reachable state satisfies.
    spec fn wf(&self) -> bool;

    /// Whether the command still wants a block from the transport.
    spec fn needs_input_spec(&self) -> bool;

    /// Whether the command has a block to hand to the transport.
    spec fn needs_output_spec(&self) -> bool;

    /// Whether the session is over: no input wanted, no output owed.
    spec fn done(&self) -> bool;

    /// Exactly how one `input_block` call relates the old state, the new
    /// state, the block that was offered and the result.
    spec fn input_step(pre: Self, post: Self, block: Seq<u8>, r: Result<
        usize,
        TransferError,
    >) -> bool;

    /// Exactly how one `output_block` call relates the old state, the new
    /// state, the buffer before and after, and the result.
    spec fn output_step(
        pre: Self,
        post: Self,
        buf_pre: Seq<u8>,
        buf_post: Seq<u8>,
        r: Result<usize, TransferError>,
    ) -> bool;

    fn needs_input(&self) -> (r: bool)
        requires
            self.wf(),
        ensures
            r == self.needs_input_spec(),
    ;

    fn input_block(&mut self, block: &[u8]) -> (r: Result<usize, TransferError>)
        requires
            old(self).wf(),
        ensures
            final(self).wf(),
            Self::input_step(*old(self), *final(self), block@, r),
            old(self).done() ==> r == Ok::<usize, TransferError>(0) && *final(self) == *old(self),
    ;

    fn needs_output(&self) -> (r: bool)
        requires
            self.wf(),
        ensures
            r == self.needs_output_spec(),
    ;

    fn output_block(&mut self, buffer: &mut Vec<u8>) -> (r: Result<usize, TransferError>)
        requires
            old(self).wf(),
            old(self).needs_output_spec() ==> old(buffer).len() >= 4,
            old(self).needs_output_spec() || old(self).done(),
        ensures
            final(self).wf(),
            final(buffer).len() == old(buffer).len(),
            Self::output_step(*old(self), *final(self), old(buffer)@, final(buffer)@, r),
            old(self).done() ==> r == Ok::<usize, TransferError>(0) && *final(self) == *old(self)
                && final(buffer)@ == old(buffer)@,
    ;
}

// --- the read command ------------------------------------------------------

/// The responder side of a read command: collect the file name from incoming
/// blocks, then stream back a 4-byte big-endian content length followed by
/// the content itself.
pub struct ReadCommandState<FileReaderType: FileReader> {
    pub prefix: ReadPrefix,
    pub file_name: Vec<u8>,
    pub file: FileReaderType,
    pub opened: bool,
    pub finished: bool,
}

impl<FileReaderType: FileReader> ReadCommandState<FileReaderType> {
    /// Declared length of the name, as the header announced it.
    pub open spec fn name_len(&self) -> int {
        self.prefix.file_name_length as int
    }

    /// Whether the whole name has arrived.
    pub open spec fn name_done(&self) -> bool {
        self.file_name@.len() == self.name_len()
    }

    /// Every meaningful byte this command has emitted so far: the length
    /// field followed by the content read up to the source's cursor.
    pub open spec fn sent_of(&self) -> Seq<u8> {
        if self.opened {
            len32(self.file.content().len() as u64) + self.file.content().take(self.file.pos())
        } else {
            Seq::empty()
        }
    }

    /// Builds an unstarted read command around an unopened content source.
    /// The source is opened by name only once the name has fully arrived.
    pub fn from_prefix(prefix: ReadPrefix, file: FileReaderType) -> (r: Self)
        requires
            !file.ready(),
        ensures
            r.wf(),
            r.prefix == prefix,
            r.file_name@ == Seq::<u8>::empty(),
            !r.opened,
            !r.finished,
    {
        ReadCommandState { prefix, file_name: Vec::new(), file, opened: false, finished: false }
    }
}

impl<FileReaderType: FileReader> ServerCommandState<ReadPrefix> for ReadCommandState<
    FileReaderType,
> {
    open spec fn wf(&self) -> bool {
        &&& self.file_name@.len() <= self.name_len()
        &&& self.opened == self.file.ready()
        &&& self.opened ==> self.name_done()
        &&& self.opened ==> 0 <= self.file.pos() <= self.file.content().len()
        &&& self.opened ==> self.file.content().len() <= usize::MAX
        &&& self.finished ==> self.opened && self.file.pos() == self.file.content().len()
    }

    open spec fn needs_input_spec(&self) -> bool {
        self.file_name@.len() < self.name_len()
    }

    open spec fn needs_output_spec(&self) -> bool {
        !self.finished && !self.needs_input_spec()
    }

    open spec fn done(&self) -> bool {
        self.finished && self.name_done()
    }

    open spec fn input_step(
        pre: Self,
        post: Self,
        block: Seq<u8>,
        r: Result<usize, TransferError>,
    ) -> bool {
        let need = pre.name_len() - pre.file_name@.len();
        let n = min(block.len() as int, need);
        let frag = block.take(n);
        match r {
            Ok(m) => {
                &&& is_text(frag)
                &&& m == n
                &&& post.file_name@ == pre.file_name@ + frag
                &&& post.prefix == pre.prefix
                &&& post.file == pre.file
                &&& post.opened == pre.opened
                &&& post.finished == pre.finished
            },
            Err(e) => {
                &&& e == TransferError::MalformedText
                &&& !is_text(frag)
                &&& post == pre
            },
        }
    }

    open spec fn output_step(
        pre: Self,
        post: Self,
        buf_pre: Seq<u8>,
        buf_post: Seq<u8>,
        r: Result<usize, TransferError>,
    ) -> bool {
        if pre.finished {
            r == Ok::<usize, TransferError>(0) && post == pre && buf_post == buf_pre
        } else if pre.opened {
            // Later output calls: keep streaming content from the source.
            match r {
                Ok(m) => {
                    let k = min(buf_pre.len() as int, pre.file.content().len() - pre.file.pos());
                    &&& m == k
                    &&& post.prefix == pre.prefix
                    &&& post.file_name@ == pre.file_name@
                    &&& post.opened
                    &&& post.file.content() == pre.file.content()
                    &&& post.file.pos() == pre.file.pos() + k
                    &&& post.finished == (k < buf_pre.len())
                    &&& buf_post.len() == buf_pre.len()
                    &&& buf_post.take(k) == pre.file.content().subrange(
                        pre.file.pos(),
                        pre.file.pos() + k,
                    )
                    &&& forall|i: int| k <= i < buf_pre.len() ==> buf_post[i] == buf_pre[i]
                },
                Err(_) => post == pre && buf_post == buf_pre,
            }
        } else {
            // First output call: open the source by name, emit the 4-byte
            // length, then as much content as fits.
            match r {
                Ok(m) => {
                    let content = post.file.content();
                    let k = min(buf_pre.len() - 4, content.len() as int);
                    &&& post.prefix == pre.prefix
                    &&& post.file_name@ == pre.file_name@
                    &&& post.opened
                    &&& content.len() <= usize::MAX
                    &&& post.file.pos() == k
                    &&& post.finished == (k < buf_pre.len() - 4)
                    &&& buf_post.len() == buf_pre.len()
                    &&& buf_post.take(4) == len32(content.len() as u64)
                    &&& buf_post.subrange(4, 4 + k) == content.take(k)
                    &&& forall|i: int| 4 + k <= i < buf_pre.len() ==> buf_post[i] == buf_pre[i]
                    &&& m == 4 + k
                },
                Err(_) => {
                    &&& post.prefix == pre.prefix
                    &&& post.file_name@ == pre.file_name@
                    &&& !post.finished
                    &&& buf_post == buf_pre
                },
            }
        }
    }

    fn needs_input(&self) -> (r: bool) {
        self.file_name.len() < self.prefix.file_name_length as usize
    }

    fn input_block(&mut self, block: &[u8]) -> (r: Result<usize, TransferError>) {
        let start_len = self.file_name.len();
        let need_bytes = self.prefix.file_name_length as usize - start_len;
        let block_size = block.len();
        if need_bytes > block_size {
            proof {
                assert(block@.take(block@.len() as int) =~= block@);
            }
            if !utf8_check(block) {
                return Err(TransferError::MalformedText);
            }
            append_from_slice(&mut self.file_name, block, 0, block_size);
            Ok(block_size)
        } else {
            let bytes = slice_subrange(block, 0, need_bytes);
            proof {
                assert(block@.take(need_bytes as int) =~= block@.subrange(0, need_bytes as int));
            }
            if !utf8_check(bytes) {
                return Err(TransferError::MalformedText);
            }
            append_from_slice(&mut self.file_name, block, 0, need_bytes);
            Ok(need_bytes)
        }
    }

    fn needs_output(&self) -> (r: bool) {
        !self.finished && !(self.file_name.len() < self.prefix.file_name_length as usize)
    }

    fn output_block(&mut self, buffer: &mut Vec<u8>) -> (r: Result<usize, TransferError>) {
        if self.finished {
            return Ok(0);
        }
        let buflen = buffer.len();
        let start: usize;
        if !self.opened {
            match self.file.open(&self.file_name) {
                Ok(()) => {},
                Err(e) => {
                    return Err(e);
                },
            }
            self.opened = true;
            start = 4;
        } else {
            start = 0;
        }
        let fl_len = self.file.len();
        let read = match self.file.read_bytes(buffer, start) {
            Ok(n) => n,
            Err(e) => {
                return Err(e);
            },
        };
        if start == 4 {
            let len64: u64 = fl_len as u64;
            buffer.set(0, ((len64 >> 24) & 0xFF) as u8);
            buffer.set(1, ((len64 >> 16) & 0xFF) as u8);
            buffer.set(2, ((len64 >> 8) & 0xFF) as u8);
            buffer.set(3, (len64 & 0xFF) as u8);
            proof {
                assert(buffer@.take(4) =~= len32(fl_len as u64));
                assert(buffer@.subrange(4, 4 + (read as int)) =~= self.file.content().take(
                    read as int,
                ));
            }
        }
        if read < buflen - start {
            self.finished = true;
        }
        Ok(start + read)
    }
}

// --- the write command -----------------------------------------------------

/// The responder side of a write command: collect the file name, open the
/// sink once the name is complete — possibly in the middle of a block — and
/// then pour incoming content into it until the declared length is reached.
pub struct WriteCommandState<FileWriterType: FileWriter> {
    pub prefix: WritePrefix,
    pub file_name: Vec<u8>,
    pub file: FileWriterType,
    pub opened: bool,
    pub finished: bool,
    pub write_idx: u64,
}

impl<FileWriterType: FileWriter> WriteCommandState<FileWriterType> {
    /// Declared length of the name, as the header announced it.
    pub open spec fn name_len(&self) -> int {
        self.prefix.file_name_length as int
    }

    /// Declared length of the content, as the header announced it.
    pub open spec fn content_len(&self) -> int {
        self.prefix.file_length as int
    }

    /// Whether the whole name has arrived.
    pub open spec fn name_done(&self) -> bool {
        self.file_name@.len() == self.name_len()
    }

    /// The content bytes delivered to the sink so far.
    pub open spec fn sunk_of(&self) -> Seq<u8> {
        if self.opened {
            self.file.sunk()
        } else {
            Seq::empty()
        }
    }

    /// Every meaningful byte this command has consumed so far: the name
    /// received, then the content delivered.
    pub open spec fn taken_of(&self) -> Seq<u8> {
        self.file_name@ + self.sunk_of()
    }

    /// Builds an unstarted write command around an unopened content sink.
    /// The sink is opened by name only once the name has fully arrived.
    pub fn from_prefix(prefix: WritePrefix, file: FileWriterType) -> (r: Self)
        requires
            !file.ready(),
        ensures
            r.wf(),
            r.prefix == prefix,
            r.file_name@ == Seq::<u8>::empty(),
            !r.opened,
            !r.finished,
            r.write_idx == 0,
    {
        WriteCommandState {
            prefix,
            file_name: Vec::new(),
            file,
            opened: false,
            finished: false,
            write_idx: 0,
        }
    }
}

impl<FileWriterType: FileWriter> ServerCommandState<WritePrefix> for WriteCommandState<
    FileWriterType,
> {
    open spec fn wf(&self) -> bool {
        &&& self.file_name@.len() <= self.name_len()
        &&& self.opened == self.file.ready()
        &&& self.opened ==> self.name_done()
        &&& self.opened ==> self.file.opened_name() == self.file_name@
        &&& self.write_idx == self.sunk_of().len()
        &&& self.write_idx <= self.content_len()
        &&& self.finished ==> self.name_done() && self.write_idx == self.content_len()
    }

    open spec fn needs_input_spec(&self) -> bool {
        !self.finished
    }

    open spec fn needs_output_spec(&self) -> bool {
        false
    }

    open spec fn done(&self) -> bool {
        self.finished
    }

    open spec fn input_step(
        pre: Self,
        post: Self,
        block: Seq<u8>,
        r: Result<usize, TransferError>,
    ) -> bool {
        let name_need = pre.name_len() - pre.file_name@.len();
        let file_need = pre.content_len() - pre.write_idx;
        if pre.finished || block.len() == 0 {
            // Nothing left to do, or nothing offered.
            r == Ok::<usize, TransferError>(0) && post == pre
        } else if name_need == 0 && file_need == 0 {
            // Both regions exhausted: this call only learns that.
            &&& r == Ok::<usize, TransferError>(0)
            &&& post.finished
            &&& post.prefix == pre.prefix
            &&& post.file_name@ == pre.file_name@
            &&& post.file == pre.file
            &&& post.opened == pre.opened
            &&& post.write_idx == pre.write_idx
        } else if name_need > block.len() {
            // The whole block is name bytes.
            match r {
                Ok(m) => {
                    &&& is_text(block)
                    &&& m == block.len()
                    &&& post.file_name@ == pre.file_name@ + block
                    &&& post.prefix == pre.prefix
                    &&& post.file == pre.file
                    &&& post.opened == pre.opened
                    &&& post.finished == pre.finished
                    &&& post.write_idx == pre.write_idx
                },
                Err(e) => e == TransferError::MalformedText && !is_text(block) && post == pre,
            }
        } else if name_need == 0 {
            // The whole block is content, clipped to the declared length.
            let k = min(file_need, block.len() as int);
            match r {
                Ok(m) => {
                    &&& m == k
                    &&& post.opened
                    &&& post.file.opened_name() == pre.file_name@
                    &&& post.sunk_of() == pre.sunk_of() + block.take(k)
                    &&& post.write_idx == pre.write_idx + k
                    &&& post.file_name@ == pre.file_name@
                    &&& post.prefix == pre.prefix
                    &&& !post.finished
                },
                Err(_) => {
                    &&& post.file_name@ == pre.file_name@
                    &&& post.write_idx == pre.write_idx
                    &&& post.sunk_of() == pre.sunk_of()
                    &&& post.finished == pre.finished
                    &&& post.prefix == pre.prefix
                },
            }
        } else {
            // The block straddles the name/content boundary: the name's tail
            // first, then content, clipped to the declared length. The result
            // counts the content bytes only.
            let name_part = block.take(name_need);
            let rest = block.skip(name_need);
            let k = min(file_need, rest.len() as int);
            match r {
                Ok(m) => {
                    &&& is_text(name_part)
                    &&& m == k
                    &&& post.file_name@ == pre.file_name@ + name_part
                    &&& post.opened
                    &&& post.file.opened_name() == post.file_name@
                    &&& post.sunk_of() == rest.take(k)
                    &&& post.write_idx == k
                    &&& post.prefix == pre.prefix
                    &&& !post.finished
                },
                Err(e) => {
                    &&& (is_text(name_part) || (e == TransferError::MalformedText && post == pre))
                    &&& post.write_idx == pre.write_idx
                    &&& post.sunk_of() == pre.sunk_of()
                    &&& post.finished == pre.finished
                    &&& post.prefix == pre.prefix
                    &&& (post.file_name@ == pre.file_name@ || post.file_name@ == pre.file_name@
                        + name_part)
                },
            }
        }
    }

    open spec fn output_step(
        pre: Self,
        post: Self,
        buf_pre: Seq<u8>,
        buf_post: Seq<u8>,
        r: Result<usize, TransferError>,
    ) -> bool {
        // A write command never produces output.
        r == Ok::<usize, TransferError>(0) && post == pre && buf_post == buf_pre
    }

    fn needs_input(&self) -> (r: bool) {
        !self.finished
    }

    fn input_block(&mut self, block: &[u8]) -> (r: Result<usize, TransferError>) {
        let block_size = block.len();
        let name_bytes_to_get = self.prefix.file_name_length as usize - self.file_name.len();
        let file_bytes_to_get = self.prefix.file_length as u64 - self.write_idx;

        if self.finished || block_size == 0 {
            Ok(0)
        } else if name_bytes_to_get == 0 && file_bytes_to_get == 0 {
            self.finished = true;
            Ok(0)
        } else if name_bytes_to_get > block_size {
            proof {
                assert(block@.take(block@.len() as int) =~= block@);
            }
            if !utf8_check(block) {
                return Err(TransferError::MalformedText);
            }
            append_from_slice(&mut self.file_name, block, 0, block_size);
            Ok(block_size)
        } else if name_bytes_to_get == 0 {
            if !self.opened {
                match self.file.open(&self.file_name) {
                    Ok(()) => {
                        self.opened = true;
                    },
                    Err(e) => {
                        return Err(e);
                    },
                }
            }
            let to_write: usize = if file_bytes_to_get < block_size as u64 {
                file_bytes_to_get as usize
            } else {
                block_size
            };
            let bytes_to_write = slice_subrange(block, 0, to_write);
            match self.file.write_bytes(bytes_to_write) {
                Ok(n) => {
                    self.write_idx = self.write_idx + n as u64;
                    proof {
                        assert(bytes_to_write@ =~= block@.take(to_write as int));
                    }
                    Ok(n)
                },
                Err(e) => Err(e),
            }
        } else {
            // The block finishes the name and may start the content.
            let name_bytes = slice_subrange(block, 0, name_bytes_to_get);
            proof {
                assert(block@.take(name_bytes_to_get as int) =~= block@.subrange(
                    0,
                    name_bytes_to_get as int,
                ));
            }
            if !utf8_check(name_bytes) {
                return Err(TransferError::MalformedText);
            }
            let mut candidate = crate::bytes::copy_bytes(self.file_name.as_slice());
            append_from_slice(&mut candidate, block, 0, name_bytes_to_get);
            match self.file.open(&candidate) {
                Ok(()) => {},
                Err(e) => {
                    return Err(e);
                },
            }
            self.opened = true;
            self.file_name = candidate;
            let rest_len = block_size - name_bytes_to_get;
            let to_write: usize = if file_bytes_to_get < rest_len as u64 {
                file_bytes_to_get as usize
            } else {
                rest_len
            };
            let file_bytes = slice_subrange(
                block,
                name_bytes_to_get,
                name_bytes_to_get + to_write,
            );
            match self.file.write_bytes(file_bytes) {
                Ok(n) => {
                    self.write_idx = n as u64;
                    proof {
                        assert(file_bytes@ =~= block@.skip(name_bytes_to_get as int).take(
                            to_write as int,
                        ));
                        assert(block@.take(name_bytes_to_get as int) =~= name_bytes@);
                    }
                    Ok(n)
                },
                Err(e) => Err(e),
            }
        }
    }

    fn needs_output(&self) -> (r: bool) {
        false
    }

    fn output_block(&mut self, _buffer: &mut Vec<u8>) -> (r: Result<usize, TransferError>) {
        Ok(0)
    }
}

// --- the dispatcher --------------------------------------------------------

/// The responder's session state: whichever of the two commands the received
/// header selected. It holds no cursors of its own; every operation goes to
/// the active variant.
pub enum CommandStates<T: FileReader, U: FileWriter> {
    Read(ReadCommandState<T>),
    Write(WriteCommandState<U>),
}

impl<T: FileReader, U: FileWriter> CommandStates<T, U> {
    /// Selects and builds the command matching the header's shape. The unused
    /// collaborator is dropped.
    pub fn from_prefix(prefix: Prefixes, reader: T, writer: U) -> (r: Self)
        requires
            !reader.ready(),
            !writer.ready(),
        ensures
            r.wf(),
            !r.done(),
            match prefix {
                Prefixes::Read(p) => r matches CommandStates::Read(c) && c.prefix == p
                    && c.file_name@ == Seq::<u8>::empty(),
                Prefixes::Write(p) => r matches CommandStates::Write(c) && c.prefix == p
                    && c.file_name@ == Seq::<u8>::empty() && c.write_idx == 0,
            },
    {
        match prefix {
            Prefixes::Read(p) => CommandStates::Read(ReadCommandState::from_prefix(p, reader)),
            Prefixes::Write(p) => CommandStates::Write(WriteCommandState::from_prefix(p, writer)),
        }
    }
}

impl<T: FileReader, U: FileWriter> ServerCommandState<Prefixes> for CommandStates<T, U> {
    open spec fn wf(&self) -> bool {
        match self {
            CommandStates::Read(c) => c.wf(),
            CommandStates::Write(c) => c.wf(),
        }
    }

    open spec fn needs_input_spec(&self) -> bool {
        match self {
            CommandStates::Read(c) => c.needs_input_spec(),
            CommandStates::Write(c) => c.needs_input_spec(),
        }
    }

    open spec fn needs_output_spec(&self) -> bool {
        match self {
            CommandStates::Read(c) => c.needs_output_spec(),
            CommandStates::Write(c) => c.needs_output_spec(),
        }
    }

    open spec fn done(&self) -> bool {
        match self {
            CommandStates::Read(c) => c.done(),
            CommandStates::Write(c) => c.done(),
        }
    }

    open spec fn input_step(
        pre: Self,
        post: Self,
        block: Seq<u8>,
        r: Result<usize, TransferError>,
    ) -> bool {
        match (pre, post) {
            (CommandStates::Read(a), CommandStates::Read(b)) => ReadCommandState::input_step(
                a,
                b,
                block,
                r,
            ),
            (CommandStates::Write(a), CommandStates::Write(b)) => WriteCommandState::input_step(
                a,
                b,
                block,
                r,
            ),
            _ => false,
        }
    }

    open spec fn output_step(
        pre: Self,
        post: Self,
        buf_pre: Seq<u8>,
        buf_post: Seq<u8>,
        r: Result<usize, TransferError>,
    ) -> bool {
        match (pre, post) {
            (CommandStates::Read(a), CommandStates::Read(b)) => ReadCommandState::output_step(
                a,
                b,
                buf_pre,
                buf_post,
                r,
            ),
            (CommandStates::Write(a), CommandStates::Write(b)) => WriteCommandState::output_step(
                a,
                b,
                buf_pre,
                buf_post,
                r,
            ),
            _ => false,
        }
    }

    fn needs_input(&self) -> (r: bool) {
        match self {
            CommandStates::Read(c) => c.needs_input(),
            CommandStates::Write(c) => c.needs_input(),
        }
    }

    fn input_block(&mut self, block: &[u8]) -> (r: Result<usize, TransferError>) {
        match self {
            CommandStates::Read(c) => c.input_block(block),
            CommandStates::Write(c) => c.input_block(block),
        }
    }

    fn needs_output(&self) -> (r: bool) {
        match self {
            CommandStates::Read(c) => c.needs_output(),
            CommandStates::Write(c) => c.needs_output(),
        }
    }

    fn output_block(&mut self, buffer: &mut Vec<u8>) -> (r: Result<usize, TransferError>) {
        match self {
            CommandStates::Read(c) => c.output_block(buffer),
            CommandStates::Write(c) => c.output_block(buffer),
        }
    }
}

} // verus!
