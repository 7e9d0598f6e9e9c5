use crate::errors::TransferError;
use crate::lengths::{be_acc, lemma_be_acc_lanes, lemma_be_acc_push, lemma_or_step};
use crate::prefixes::{CommandPrefix, ReadPrefix, WritePrefix};
use crate::storage::{FileContentStorer, FileRetriever};
use vstd::math::min;
use vstd::pervasive::VecAdditionalExecFns;
use vstd::prelude::*;
use vstd::slice::slice_subrange;

verus! {

/// One side of an initiator session: a command that alternately fills
/// transport blocks to send and consumes received ones until it is done.
///
/// Each implementor fixes its own well-formedness invariant and its exact
/// transition relations as spec functions; the executable methods are proved
/// against those. Once a command reports neither `needs_push` nor
/// `needs_pull`, every further call is a no-op that returns `Ok(0)`.
pub trait ClientCommandState<T: CommandPrefix + Copy>: Sized {
    /// The structural invariant every reachable state satisfies.
    spec fn wf(&self) -> bool;

    /// The header this command was built from.
    spec fn prefix_spec(&self) -> T;

    /// Whether the command still has bytes to send.
    spec fn needs_push_spec(&self) -> bool;

    /// Whether the command still expects bytes from the responder.
    spec fn needs_pull_spec(&self) -> bool;

    /// Whether the session is over: nothing to send, nothing expected.
    spec fn done(&self) -> bool;

    /// Exactly how one `push_block` call relates the old state, the new
    /// state, the block before and after, and the result.
    spec fn push_step(
        pre: Self,
        post: Self,
        buf_pre: Seq<u8>,
        buf_post: Seq<u8>,
        r: Result<usize, TransferError>,
    ) -> bool;

    /// Exactly how one `pull_block` call relates the old state, the new
    /// state, the received block and the result.
    spec fn pull_step(pre: Self, post: Self, buffer: Seq<u8>, r: Result<
        usize,
        TransferError,
    >) -> bool;

    fn prefix(&self) -> (r: T)
        requires
            self.wf(),
        ensures
            r == self.prefix_spec(),
    ;

    fn needs_push(&self) -> (r: bool)
        requires
            self.wf(),
        ensures
            r == self.needs_push_spec(),
    ;

    fn push_block(&mut self, block: &mut Vec<u8>) -> (r: Result<usize, TransferError>)
        requires
            old(self).wf(),
        ensures
            final(self).wf(),
            final(block).len() == old(block).len(),
            Self::push_step(*old(self), *final(self), old(block)@, final(block)@, r),
            old(self).done() ==> r == Ok::<usize, TransferError>(0) && *final(self) == *old(self)
                && final(block)@ == old(block)@,
    ;

    fn needs_pull(&self) -> (r: bool)
        requires
            self.wf(),
        ensures
            r == self.needs_pull_spec(),
    ;

    fn pull_block(&mut self, buffer: &[u8]) -> (r: Result<usize, TransferError>)
        requires
            old(self).wf(),
        ensures
            final(self).wf(),
            Self::pull_step(*old(self), *final(self), buffer@, r),
            old(self).done() ==> r == Ok::<usize, TransferError>(0) && *final(self) == *old(self),
    ;
}

// --- the read transfer -----------------------------------------------------

/// The initiator side of a read command: push the remote name, then consume
/// the responder's 4-byte big-endian content length and the content itself,
/// delivering the content to a local sink opened once the length is known.
pub struct ReadState<StoreType: FileContentStorer> {
    pub prefix: ReadPrefix,
    pub file_name: Vec<u8>,
    pub output_name: Vec<u8>,
    pub store: StoreType,
    pub opened: bool,
    pub push_idx: u64,
    pub pull_idx: u64,
    pub file_size: u64,
    pub len_seen: Ghost<Seq<u8>>,
}

impl<StoreType: FileContentStorer> ReadState<StoreType> {
    /// Declared length of the remote name, as the header announces it.
    pub open spec fn name_len(&self) -> int {
        self.prefix.file_name_length as int
    }

    /// The content bytes delivered to the local sink so far.
    pub open spec fn sunk_of(&self) -> Seq<u8> {
        if self.opened {
            self.store.sunk()
        } else {
            Seq::empty()
        }
    }

    /// Every meaningful response byte consumed so far: the part of the
    /// length field seen, then the content delivered.
    pub open spec fn received_of(&self) -> Seq<u8> {
        self.len_seen@ + self.sunk_of()
    }

    /// The name bytes pushed so far.
    pub open spec fn pushed_of(&self) -> Seq<u8> {
        self.file_name@.take(self.push_idx as int)
    }

    /// Builds a read transfer for a remote name and a local target, around an
    /// unopened sink. Fails exactly when the header's declared name length
    /// disagrees with the name's actual length.
    pub fn new_read(
        prefix: ReadPrefix,
        file_name: Vec<u8>,
        output_name: Vec<u8>,
        store: StoreType,
    ) -> (r: Result<Self, TransferError>)
        requires
            !store.ready(),
            prefix.file_name_length as int == file_name@.len() ==> prefix.file_name_length >= 1,
        ensures
            match r {
                Ok(s) => {
                    &&& prefix.file_name_length as int == file_name@.len()
                    &&& s.wf()
                    &&& s.prefix == prefix
                    &&& s.file_name@ == file_name@
                    &&& s.output_name@ == output_name@
                    &&& !s.opened
                    &&& s.push_idx == 0
                    &&& s.pull_idx == 0
                    &&& s.file_size == 0
                },
                Err(e) => {
                    &&& e == TransferError::HeaderMismatch
                    &&& prefix.file_name_length as int != file_name@.len()
                },
            },
    {
        if file_name.len() != prefix.file_name_length as usize {
            Err(TransferError::HeaderMismatch)
        } else {
            Ok(
                ReadState {
                    prefix,
                    file_name,
                    output_name,
                    store,
                    opened: false,
                    push_idx: 0,
                    pull_idx: 0,
                    file_size: 0,
                    len_seen: Ghost(Seq::empty()),
                },
            )
        }
    }
}

impl<StoreType: FileContentStorer> ClientCommandState<ReadPrefix> for ReadState<StoreType> {
    open spec fn wf(&self) -> bool {
        &&& self.name_len() >= 1
        &&& self.file_name@.len() == self.name_len()
        &&& self.push_idx <= self.name_len()
        &&& self.opened == self.store.ready()
        &&& self.opened ==> self.store.opened_name() == self.output_name@
        &&& self.len_seen@.len() == min(self.pull_idx as int, 4)
        &&& self.file_size == be_acc(self.len_seen@)
        &&& self.file_size <= 0xFFFFFFFF
        &&& self.pull_idx >= 4 ==> self.opened
        &&& self.pull_idx >= 4 ==> self.pull_idx as int == 4 + self.sunk_of().len()
        &&& self.pull_idx < 4 ==> self.sunk_of().len() == 0
        &&& self.pull_idx >= 4 ==> self.pull_idx <= self.file_size + 4
    }

    open spec fn prefix_spec(&self) -> ReadPrefix {
        self.prefix
    }

    open spec fn needs_push_spec(&self) -> bool {
        self.push_idx < self.name_len() - 1
    }

    open spec fn needs_pull_spec(&self) -> bool {
        !self.needs_push_spec() && self.pull_idx < self.file_size + 4
    }

    /// Because `needs_push` deliberately stops one byte short of the name
    /// (see the construction of this transfer), the final name byte can still
    /// be pushed after `needs_push` has gone false. The session therefore
    /// counts as over only once the name is fully pushed and the whole
    /// response is consumed; only then are all further calls no-ops.
    open spec fn done(&self) -> bool {
        self.push_idx >= self.name_len() && self.pull_idx >= 4 && self.pull_idx == self.file_size
            + 4
    }

    open spec fn push_step(
        pre: Self,
        post: Self,
        buf_pre: Seq<u8>,
        buf_post: Seq<u8>,
        r: Result<usize, TransferError>,
    ) -> bool {
        let n = min(buf_pre.len() as int, pre.name_len() - pre.push_idx);
        match r {
            Ok(m) => {
                &&& m == n
                &&& buf_post.len() == buf_pre.len()
                &&& buf_post.take(n) == pre.file_name@.subrange(
                    pre.push_idx as int,
                    pre.push_idx + n,
                )
                &&& forall|i: int| n <= i < buf_pre.len() ==> buf_post[i] == buf_pre[i]
                &&& post.push_idx == pre.push_idx + n
                &&& post.prefix == pre.prefix
                &&& post.file_name@ == pre.file_name@
                &&& post.output_name@ == pre.output_name@
                &&& post.store == pre.store
                &&& post.opened == pre.opened
                &&& post.pull_idx == pre.pull_idx
                &&& post.file_size == pre.file_size
                &&& post.len_seen@ == pre.len_seen@
            },
            Err(_) => false,
        }
    }

    open spec fn pull_step(
        pre: Self,
        post: Self,
        buffer: Seq<u8>,
        r: Result<usize, TransferError>,
    ) -> bool {
        if pre.pull_idx >= 4 && pre.pull_idx == pre.file_size + 4 {
            // The whole response was already consumed.
            r == Ok::<usize, TransferError>(0) && post == pre
        } else {
            let k = if pre.pull_idx < 4 {
                min(buffer.len() as int, 4 - pre.pull_idx as int)
            } else {
                0
            };
            let seen2 = pre.len_seen@ + buffer.take(k);
            if pre.pull_idx + k < 4 {
                // The block ended inside the length field.
                &&& r == Ok::<usize, TransferError>(k as usize)
                &&& post.len_seen@ == seen2
                &&& post.file_size == be_acc(seen2)
                &&& post.pull_idx == pre.pull_idx + k
                &&& post.prefix == pre.prefix
                &&& post.file_name@ == pre.file_name@
                &&& post.output_name@ == pre.output_name@
                &&& post.store == pre.store
                &&& post.opened == pre.opened
                &&& post.push_idx == pre.push_idx
            } else {
                // The length is complete after k more bytes; content follows.
                let l = be_acc(seen2);
                let remaining = l + 4 - pre.pull_idx - k;
                let cap = min(remaining, buffer.len() - k);
                match r {
                    Ok(m) => {
                        &&& m == k + cap
                        &&& post.opened
                        &&& post.store.ready()
                        &&& post.store.opened_name() == pre.output_name@
                        &&& (!pre.opened ==> post.store.declared() == l)
                        &&& post.sunk_of() == pre.sunk_of() + buffer.subrange(k, k + cap)
                        &&& post.pull_idx == pre.pull_idx + m
                        &&& post.file_size == l
                        &&& post.len_seen@ == seen2
                        &&& post.prefix == pre.prefix
                        &&& post.file_name@ == pre.file_name@
                        &&& post.output_name@ == pre.output_name@
                        &&& post.push_idx == pre.push_idx
                    },
                    Err(_) => {
                        &&& post.pull_idx == pre.pull_idx
                        &&& post.file_size == pre.file_size
                        &&& post.len_seen@ == pre.len_seen@
                        &&& post.sunk_of() == pre.sunk_of()
                        &&& post.push_idx == pre.push_idx
                        &&& post.prefix == pre.prefix
                        &&& post.file_name@ == pre.file_name@
                        &&& post.output_name@ == pre.output_name@
                    },
                }
            }
        }
    }

    fn prefix(&self) -> (r: ReadPrefix) {
        self.prefix
    }

    fn needs_push(&self) -> (r: bool) {
        self.push_idx < self.prefix.file_name_length as u64 - 1
    }

    fn push_block(&mut self, block: &mut Vec<u8>) -> (r: Result<usize, TransferError>) {
        let ghost pre = *self;
        let mut cur_pushed: usize = 0;
        let name_len = self.prefix.file_name_length as u64;
        while cur_pushed < block.len() && self.push_idx + (cur_pushed as u64) < name_len
            invariant
                *self == pre,
                pre.wf(),
                name_len == pre.prefix.file_name_length as u64,
                cur_pushed as int <= min(block.len() as int, pre.name_len() - pre.push_idx),
                block.len() == old(block).len(),
                block@.take(cur_pushed as int) == pre.file_name@.subrange(
                    pre.push_idx as int,
                    pre.push_idx + cur_pushed,
                ),
                forall|i: int|
                    cur_pushed <= i < block@.len() ==> block@[i] == old(block)@[i],
            decreases block.len() - cur_pushed,
        {
            let idx = self.push_idx as usize + cur_pushed;
            block.set(cur_pushed, self.file_name[idx]);
            proof {
                assert(block@.take(cur_pushed + 1) =~= pre.file_name@.subrange(
                    pre.push_idx as int,
                    pre.push_idx + cur_pushed + 1,
                ));
            }
            cur_pushed = cur_pushed + 1;
        }
        self.push_idx = self.push_idx + cur_pushed as u64;
        Ok(cur_pushed)
    }

    fn needs_pull(&self) -> (r: bool) {
        !(self.push_idx < self.prefix.file_name_length as u64 - 1) && self.pull_idx < self.file_size
            + 4
    }

    fn pull_block(&mut self, buffer: &[u8]) -> (r: Result<usize, TransferError>) {
        if self.pull_idx >= 4 && self.pull_idx == self.file_size + 4 {
            return Ok(0);
        }
        let block_sz = buffer.len();
        let mut cur_pulled: usize = 0;
        let mut fs: u64 = self.file_size;
        let ghost mut seen: Seq<u8> = self.len_seen@;

        while self.pull_idx + (cur_pulled as u64) < 4 && cur_pulled < block_sz
            invariant
                *self == *old(self),
                old(self).wf(),
                block_sz == buffer@.len(),
                cur_pulled as int <= if old(self).pull_idx < 4 {
                    min(buffer@.len() as int, 4 - old(self).pull_idx as int)
                } else {
                    0
                },
                seen.len() == min(old(self).pull_idx + cur_pulled, 4),
                seen.len() <= 4,
                seen == old(self).len_seen@ + buffer@.take(cur_pulled as int),
                fs == be_acc(seen),
                fs <= 0xFFFFFFFF,
            decreases 4 - (self.pull_idx + cur_pulled as u64),
        {
            let read_byte = buffer[cur_pulled];
            let p: u64 = self.pull_idx + cur_pulled as u64;
            let byte_offset: u64 = 3 - p;
            let bit_offset: u64 = byte_offset * 8;
            proof {
                lemma_be_acc_lanes(seen);
                lemma_or_step(fs, read_byte, p);
                lemma_be_acc_push(seen, read_byte);
                assert(seen.push(read_byte) =~= old(self).len_seen@ + buffer@.take(
                    cur_pulled + 1,
                ));
            }
            fs = fs | ((read_byte as u64) << bit_offset);
            proof {
                seen = seen.push(read_byte);
            }
            cur_pulled = cur_pulled + 1;
        }
        if self.pull_idx + (cur_pulled as u64) < 4 {
            self.file_size = fs;
            self.len_seen = Ghost(seen);
            self.pull_idx = self.pull_idx + cur_pulled as u64;
            return Ok(cur_pulled);
        }
        // The length field is complete: fs holds the declared content length.
        if !self.opened {
            match self.store.for_name(&self.output_name, fs) {
                Ok(()) => {
                    self.opened = true;
                },
                Err(e) => {
                    return Err(e);
                },
            }
        }
        let bytes_remaining: u64 = fs + 4 - self.pull_idx - cur_pulled as u64;
        let avail: usize = block_sz - cur_pulled;
        let to_push: usize = if bytes_remaining < avail as u64 {
            bytes_remaining as usize
        } else {
            avail
        };
        let bytes_to_push = slice_subrange(buffer, cur_pulled, cur_pulled + to_push);
        match self.store.push_bytes(bytes_to_push) {
            Ok(w) => {
                proof {
                    assert(bytes_to_push@ =~= buffer@.subrange(
                        cur_pulled as int,
                        cur_pulled + to_push,
                    ));
                }
                self.file_size = fs;
                self.len_seen = Ghost(seen);
                self.pull_idx = self.pull_idx + cur_pulled as u64 + w as u64;
                Ok(cur_pulled + w)
            },
            Err(e) => Err(e),
        }
    }
}

// --- the write transfer ----------------------------------------------------

/// The initiator side of a write command: push the remote name and then the
/// local file's content, as one contiguous stream cut into blocks. Nothing
/// ever comes back from the responder.
pub struct WriteState<FileType: FileRetriever> {
    pub prefix: WritePrefix,
    pub file: FileType,
    pub switch_name: Vec<u8>,
    pub push_idx: u64,
}

impl<FileType: FileRetriever> WriteState<FileType> {
    /// Declared length of the remote name, as the header announces it.
    pub open spec fn name_len(&self) -> int {
        self.prefix.file_name_length as int
    }

    /// Declared length of the content, as the header announces it.
    pub open spec fn content_len(&self) -> int {
        self.prefix.file_length as int
    }

    /// The whole stream this command sends: the name, then the content.
    pub open spec fn stream_of(&self) -> Seq<u8> {
        self.switch_name@ + self.file.content()
    }

    /// The bytes pushed so far.
    pub open spec fn pushed_of(&self) -> Seq<u8> {
        self.stream_of().take(self.push_idx as int)
    }

    /// Builds a write transfer for a remote name around an already-open local
    /// source. Fails exactly when the header's declared name length disagrees
    /// with the name's actual length, or its declared content length with the
    /// source's actual length: the header is never trusted over the source.
    pub fn new_write(prefix: WritePrefix, switch_path: Vec<u8>, file: FileType) -> (r: Result<
        Self,
        TransferError,
    >)
        requires
            file.pos() == 0,
        ensures
            match r {
                Ok(s) => {
                    &&& switch_path@.len() == prefix.file_name_length
                    &&& file.content().len() == prefix.file_length
                    &&& s.wf()
                    &&& s.prefix == prefix
                    &&& s.switch_name@ == switch_path@
                    &&& s.file == file
                    &&& s.push_idx == 0
                },
                Err(e) => {
                    &&& e == TransferError::HeaderMismatch
                    &&& (switch_path@.len() != prefix.file_name_length || file.content().len()
                        != prefix.file_length)
                },
            },
    {
        if switch_path.len() != prefix.file_name_length as usize {
            return Err(TransferError::HeaderMismatch);
        }
        if file.len() != prefix.file_length as usize {
            return Err(TransferError::HeaderMismatch);
        }
        Ok(WriteState { prefix, file, switch_name: switch_path, push_idx: 0 })
    }
}

impl<FileType: FileRetriever> ClientCommandState<WritePrefix> for WriteState<FileType> {
    open spec fn wf(&self) -> bool {
        &&& self.switch_name@.len() == self.name_len()
        &&& self.file.content().len() == self.content_len()
        &&& self.push_idx <= self.name_len() + self.content_len()
        &&& self.file.pos() == if self.push_idx <= self.name_len() {
            0int
        } else {
            self.push_idx - self.name_len()
        }
    }

    open spec fn prefix_spec(&self) -> WritePrefix {
        self.prefix
    }

    open spec fn needs_push_spec(&self) -> bool {
        self.push_idx < self.content_len() + self.name_len()
    }

    open spec fn needs_pull_spec(&self) -> bool {
        false
    }

    open spec fn done(&self) -> bool {
        !self.needs_push_spec()
    }

    open spec fn push_step(
        pre: Self,
        post: Self,
        buf_pre: Seq<u8>,
        buf_post: Seq<u8>,
        r: Result<usize, TransferError>,
    ) -> bool {
        let n = min(buf_pre.len() as int, pre.name_len() + pre.content_len() - pre.push_idx);
        match r {
            Ok(m) => {
                &&& m == n
                &&& buf_post.len() == buf_pre.len()
                &&& buf_post.take(n) == pre.stream_of().subrange(
                    pre.push_idx as int,
                    pre.push_idx + n,
                )
                &&& forall|i: int| n <= i < buf_pre.len() ==> buf_post[i] == buf_pre[i]
                &&& post.push_idx == pre.push_idx + n
                &&& post.prefix == pre.prefix
                &&& post.switch_name@ == pre.switch_name@
                &&& post.file.name_spec() == pre.file.name_spec()
                &&& post.file.content() == pre.file.content()
            },
            Err(_) => {
                // The local source failed mid-block: only a non-empty block
                // that reaches past the name region ever consults the source,
                // so failure is impossible elsewhere. The cursor covers what
                // was placed in the block so far, and the session is dead.
                &&& pre.push_idx + buf_pre.len() > pre.name_len()
                &&& buf_pre.len() > 0
                &&& pre.push_idx <= post.push_idx <= pre.name_len() + pre.content_len()
                &&& post.prefix == pre.prefix
                &&& post.switch_name@ == pre.switch_name@
                &&& post.file.content() == pre.file.content()
                &&& buf_post.len() == buf_pre.len()
            },
        }
    }

    open spec fn pull_step(
        pre: Self,
        post: Self,
        buffer: Seq<u8>,
        r: Result<usize, TransferError>,
    ) -> bool {
        // Writes are one-way: pulling is always a no-op.
        r == Ok::<usize, TransferError>(0) && post == pre
    }

    fn prefix(&self) -> (r: WritePrefix) {
        self.prefix
    }

    fn needs_push(&self) -> (r: bool) {
        self.push_idx < self.prefix.file_length as u64 + self.prefix.file_name_length as u64
    }

    fn push_block(&mut self, block: &mut Vec<u8>) -> (r: Result<usize, TransferError>) {
        let ghost pre = *self;
        let mut cur_pushed: usize = 0;
        let name_len = self.prefix.file_name_length as u64;
        let total = self.prefix.file_name_length as u64 + self.prefix.file_length as u64;
        while self.push_idx + (cur_pushed as u64) < name_len && cur_pushed < block.len()
            invariant
                *self == pre,
                pre == *old(self),
                pre.wf(),
                name_len == pre.prefix.file_name_length as u64,
                cur_pushed > 0 ==> pre.push_idx + cur_pushed <= pre.name_len(),
                pre.push_idx + cur_pushed <= pre.name_len() + pre.content_len(),
                cur_pushed <= block.len(),
                block.len() == old(block).len(),
                block@.take(cur_pushed as int) == pre.stream_of().subrange(
                    pre.push_idx as int,
                    pre.push_idx + cur_pushed,
                ),
                forall|i: int|
                    cur_pushed <= i < block@.len() ==> block@[i] == old(block)@[i],
            decreases name_len - (self.push_idx + cur_pushed as u64),
        {
            let idx = self.push_idx as usize + cur_pushed;
            block.set(cur_pushed, self.switch_name[idx]);
            proof {
                assert(pre.stream_of()[pre.push_idx + cur_pushed] == pre.switch_name@[idx as int]);
                assert(block@.take(cur_pushed + 1) =~= pre.stream_of().subrange(
                    pre.push_idx as int,
                    pre.push_idx + cur_pushed + 1,
                ));
            }
            cur_pushed = cur_pushed + 1;
        }
        while self.push_idx + (cur_pushed as u64) < total && cur_pushed < block.len()
            invariant
                pre == *old(self),
                cur_pushed == 0 ==> *self == pre,
                self.prefix == pre.prefix,
                self.switch_name == pre.switch_name,
                self.push_idx == pre.push_idx,
                self.file.content() == pre.file.content(),
                self.file.name_spec() == pre.file.name_spec(),
                pre.wf(),
                name_len == pre.prefix.file_name_length as u64,
                total == pre.name_len() + pre.content_len(),
                pre.push_idx + cur_pushed <= total,
                cur_pushed <= block.len(),
                cur_pushed < block.len() ==> pre.push_idx + cur_pushed >= name_len,
                self.file.pos() == if pre.push_idx + cur_pushed <= pre.name_len() {
                    0int
                } else {
                    pre.push_idx + cur_pushed - pre.name_len()
                },
                block.len() == old(block).len(),
                block@.take(cur_pushed as int) == pre.stream_of().subrange(
                    pre.push_idx as int,
                    pre.push_idx + cur_pushed,
                ),
                forall|i: int|
                    cur_pushed <= i < block@.len() ==> block@[i] == old(block)@[i],
            decreases block.len() - cur_pushed,
        {
            let ghost bsnap = block@;
            let ghost pos0 = self.file.pos();
            let w = match self.file.read_bytes(block, cur_pushed) {
                Ok(w) => w,
                Err(e) => {
                    self.push_idx = self.push_idx + cur_pushed as u64;
                    return Err(e);
                },
            };
            proof {
                assert forall|j: int| 0 <= j < cur_pushed + w implies block@[j] == pre.stream_of()[
                    pre.push_idx + j
                ] by {
                    if j < cur_pushed {
                        assert(block@[j] == bsnap[j]);
                        assert(bsnap.take(cur_pushed as int)[j] == bsnap[j]);
                    } else {
                        assert(block@.subrange(cur_pushed as int, cur_pushed + w)[j - cur_pushed]
                            == block@[j]);
                        assert(pre.file.content().subrange(pos0, pos0 + w)[j - cur_pushed]
                            == pre.file.content()[pos0 + (j - cur_pushed)]);
                        assert(pre.stream_of()[pre.push_idx + j] == pre.file.content()[
                            pre.push_idx + j - pre.name_len()
                        ]);
                    }
                };
                assert(block@.take(cur_pushed + w) =~= pre.stream_of().subrange(
                    pre.push_idx as int,
                    pre.push_idx + cur_pushed + w,
                ));
            }
            cur_pushed = cur_pushed + w;
        }
        if cur_pushed > 0 {
            self.push_idx = self.push_idx + cur_pushed as u64;
        }
        proof {
            if pre.done() {
                assert(cur_pushed == 0);
                assert(block@ =~= old(block)@);
            }
        }
        Ok(cur_pushed)
    }

    fn needs_pull(&self) -> (r: bool) {
        false
    }

    fn pull_block(&mut self, _buffer: &[u8]) -> (r: Result<usize, TransferError>) {
        Ok(0)
    }
}

} // verus!
