use crate::errors::TransferError;
use vstd::prelude::*;

verus! {

// The four storage collaborators. The state machines are generic over these
// traits and are verified against nothing but the contracts below; in-memory
// implementations live in this crate, while implementations backed by a real
// file system belong to the surrounding program and are outside what is
// verified here.
//
// All of them may refuse an operation with an error of the implementor's
// choosing; when they do, they must leave their observable state unchanged,
// so that a session that aborts on the first error never sees a collaborator
// in a half-changed state.

/// A cursor-based source of file content on the responder side, opened by
/// name once the name has fully arrived.
pub trait FileReader: Sized {
    /// Whether a file is open behind this source.
    open spec fn ready(&self) -> bool {
        false
    }

    /// The full content of the opened file.
    open spec fn content(&self) -> Seq<u8> {
        Seq::empty()
    }

    /// How many content bytes have been handed out so far.
    open spec fn pos(&self) -> int {
        0
    }

    /// Opens the source for the given file name.
    fn open(&mut self, file_name: &Vec<u8>) -> (r: Result<(), TransferError>)
        requires
            !old(self).ready(),
        ensures
            match r {
                Ok(()) => final(self).ready() && final(self).pos() == 0,
                Err(_) => *final(self) == *old(self),
            },
    ;

    /// The number of bytes in the opened file.
    fn len(&self) -> (r: usize)
        requires
            self.ready(),
        ensures
            r == self.content().len(),
    ;

    /// Reads the next content bytes into `buffer[offset..]`, filling as much
    /// of it as the remaining content allows, and returns how many bytes were
    /// placed. A result smaller than the available space means the end of the
    /// content was reached.
    fn read_bytes(&mut self, buffer: &mut Vec<u8>, offset: usize) -> (r: Result<
        usize,
        TransferError,
    >)
        requires
            old(self).ready(),
            0 <= old(self).pos() <= old(self).content().len(),
            offset <= old(buffer).len(),
        ensures
            match r {
                Ok(n) => {
                    &&& final(self).ready()
                    &&& final(self).content() == old(self).content()
                    &&& n == vstd::math::min(
                        old(buffer)@.len() - offset,
                        old(self).content().len() - old(self).pos(),
                    )
                    &&& final(self).pos() == old(self).pos() + n
                    &&& final(buffer)@.len() == old(buffer)@.len()
                    &&& final(buffer)@.subrange(offset as int, offset + n)
                        == old(self).content().subrange(
                        old(self).pos(),
                        old(self).pos() + n,
                    )
                    &&& forall|i: int|
                        0 <= i < old(buffer)@.len() && !(offset <= i < offset + n)
                            ==> final(buffer)@[i] == old(buffer)@[i]
                },
                Err(_) => *final(self) == *old(self) && final(buffer)@ == old(buffer)@,
            },
    ;
}

/// A cursor-based sink for file content on the responder side, opened by
/// name once the name has fully arrived.
pub trait FileWriter: Sized {
    /// Whether a target is open behind this sink.
    open spec fn ready(&self) -> bool {
        false
    }

    /// The name the sink was opened under.
    open spec fn opened_name(&self) -> Seq<u8> {
        Seq::empty()
    }

    /// Every content byte accepted so far, in order.
    open spec fn sunk(&self) -> Seq<u8> {
        Seq::empty()
    }

    /// Opens the sink for the given file name. Fails, among other causes, if
    /// a target with that name already exists.
    fn open(&mut self, file_name: &Vec<u8>) -> (r: Result<(), TransferError>)
        requires
            !old(self).ready(),
        ensures
            match r {
                Ok(()) => {
                    &&& final(self).ready()
                    &&& final(self).opened_name() == file_name@
                    &&& final(self).sunk() == Seq::<u8>::empty()
                },
                Err(_) => *final(self) == *old(self),
            },
    ;

    /// Appends every byte of the buffer to the sink.
    fn write_bytes(&mut self, buffer: &[u8]) -> (r: Result<usize, TransferError>)
        requires
            old(self).ready(),
        ensures
            match r {
                Ok(n) => {
                    &&& n == buffer@.len()
                    &&& final(self).ready()
                    &&& final(self).opened_name() == old(self).opened_name()
                    &&& final(self).sunk() == old(self).sunk() + buffer@
                },
                Err(_) => *final(self) == *old(self),
            },
    ;
}

/// An already-open source of local file content on the initiator side,
/// together with the name it was opened under.
pub trait FileRetriever: Sized {
    /// The name this source was opened under.
    open spec fn name_spec(&self) -> Seq<u8> {
        Seq::empty()
    }

    /// The full content of the local file.
    open spec fn content(&self) -> Seq<u8> {
        Seq::empty()
    }

    /// How many content bytes have been handed out so far.
    open spec fn pos(&self) -> int {
        0
    }

    fn name(&self) -> (r: &Vec<u8>)
        ensures
            r@ == self.name_spec(),
    ;

    fn len(&self) -> (r: usize)
        ensures
            r == self.content().len(),
    ;

    /// Reads the next content bytes into `buffer[offset..]`, filling as much
    /// of it as the remaining content allows, and returns how many bytes were
    /// placed.
    fn read_bytes(&mut self, buffer: &mut Vec<u8>, offset: usize) -> (r: Result<
        usize,
        TransferError,
    >)
        requires
            0 <= old(self).pos() <= old(self).content().len(),
            offset <= old(buffer).len(),
        ensures
            match r {
                Ok(n) => {
                    &&& final(self).name_spec() == old(self).name_spec()
                    &&& final(self).content() == old(self).content()
                    &&& n == vstd::math::min(
                        old(buffer)@.len() - offset,
                        old(self).content().len() - old(self).pos(),
                    )
                    &&& final(self).pos() == old(self).pos() + n
                    &&& final(buffer)@.len() == old(buffer)@.len()
                    &&& final(buffer)@.subrange(offset as int, offset + n)
                        == old(self).content().subrange(
                        old(self).pos(),
                        old(self).pos() + n,
                    )
                    &&& forall|i: int|
                        0 <= i < old(buffer)@.len() && !(offset <= i < offset + n)
                            ==> final(buffer)@[i] == old(buffer)@[i]
                },
                Err(_) => *final(self) == *old(self) && final(buffer)@ == old(buffer)@,
            },
    ;
}

/// A sink for incoming file content on the initiator side, opened by name and
/// declared size once the 4-byte length field has fully arrived.
pub trait FileContentStorer: Sized {
    /// Whether a target is open behind this sink.
    open spec fn ready(&self) -> bool {
        false
    }

    /// The name the sink was opened under.
    open spec fn opened_name(&self) -> Seq<u8> {
        Seq::empty()
    }

    /// The content size the sink was told to expect.
    open spec fn declared(&self) -> int {
        0
    }

    /// Every content byte accepted so far, in order.
    open spec fn sunk(&self) -> Seq<u8> {
        Seq::empty()
    }

    /// Opens the sink for the given name and declared content size.
    fn for_name(&mut self, name: &Vec<u8>, size: u64) -> (r: Result<(), TransferError>)
        requires
            !old(self).ready(),
        ensures
            match r {
                Ok(()) => {
                    &&& final(self).ready()
                    &&& final(self).opened_name() == name@
                    &&& final(self).declared() == size
                    &&& final(self).sunk() == Seq::<u8>::empty()
                },
                Err(_) => *final(self) == *old(self),
            },
    ;

    /// Appends every byte of the buffer to the sink.
    fn push_bytes(&mut self, buffer: &[u8]) -> (r: Result<usize, TransferError>)
        requires
            old(self).ready(),
        ensures
            match r {
                Ok(n) => {
                    &&& n == buffer@.len()
                    &&& final(self).ready()
                    &&& final(self).opened_name() == old(self).opened_name()
                    &&& final(self).declared() == old(self).declared()
                    &&& final(self).sunk() == old(self).sunk() + buffer@
                },
                Err(_) => *final(self) == *old(self),
            },
    ;
}

} // verus!
