use crate::errors::TransferError;
use crate::prefixes::{CommandPrefix, Prefixes, PREFIX_LENGTH};
use vstd::prelude::*;

verus! {

// The transport collaborators: one fixed-size block, or one 8-byte header,
// moved at a time. Each side's view of the transport is a pair of byte
// streams — what has arrived and is waiting to be consumed, and what has
// been handed over for sending. A failed operation reports a transport
// failure and moves nothing.

/// The initiator's transport: send headers and blocks, receive blocks.
pub trait ClientDevice: Sized {
    /// The fixed block size of this connection.
    open spec fn block_size_spec(&self) -> int {
        0
    }

    /// Bytes that have arrived and are waiting to be pulled.
    open spec fn incoming(&self) -> Seq<u8> {
        Seq::empty()
    }

    /// Bytes handed over for sending so far.
    open spec fn outgoing(&self) -> Seq<u8> {
        Seq::empty()
    }

    /// Serializes the header and hands its 8 bytes to the transport.
    fn push_prefix(&mut self, prefix: Prefixes) -> (r: Result<usize, TransferError>)
        ensures
            match r {
                Ok(n) => {
                    &&& n == PREFIX_LENGTH
                    &&& final(self).outgoing() == old(self).outgoing() + prefix.spec_serial()
                    &&& final(self).incoming() == old(self).incoming()
                    &&& final(self).block_size_spec() == old(self).block_size_spec()
                },
                Err(_) => *final(self) == *old(self),
            },
    ;

    fn block_size(&self) -> (r: usize)
        ensures
            r == self.block_size_spec(),
    ;

    /// Receives one block into the front of the buffer.
    fn pull_block(&mut self, buffer: &mut Vec<u8>) -> (r: Result<usize, TransferError>)
        ensures
            match r {
                Ok(n) => {
                    &&& n == old(self).block_size_spec()
                    &&& n <= old(self).incoming().len()
                    &&& n <= old(buffer).len()
                    &&& final(buffer)@.len() == old(buffer)@.len()
                    &&& final(buffer)@.take(n as int) == old(self).incoming().take(n as int)
                    &&& forall|i: int|
                        n <= i < old(buffer)@.len() ==> final(buffer)@[i] == old(buffer)@[i]
                    &&& final(self).incoming() == old(self).incoming().skip(n as int)
                    &&& final(self).outgoing() == old(self).outgoing()
                    &&& final(self).block_size_spec() == old(self).block_size_spec()
                },
                Err(_) => *final(self) == *old(self) && final(buffer)@ == old(buffer)@,
            },
    ;

    /// Hands one block over for sending; the slice must be exactly one block.
    fn push_block(&mut self, bytes: &[u8]) -> (r: Result<usize, TransferError>)
        ensures
            match r {
                Ok(n) => {
                    &&& n == old(self).block_size_spec()
                    &&& bytes@.len() == n
                    &&& final(self).outgoing() == old(self).outgoing() + bytes@
                    &&& final(self).incoming() == old(self).incoming()
                    &&& final(self).block_size_spec() == old(self).block_size_spec()
                },
                Err(_) => *final(self) == *old(self),
            },
    ;
}

/// The responder's transport: receive headers and blocks, send blocks.
pub trait ServerDevice: Sized {
    /// The fixed block size of this connection.
    open spec fn block_size_spec(&self) -> int {
        0
    }

    /// Bytes that have arrived and are waiting to be read.
    open spec fn incoming(&self) -> Seq<u8> {
        Seq::empty()
    }

    /// Bytes handed over for sending so far.
    open spec fn outgoing(&self) -> Seq<u8> {
        Seq::empty()
    }

    /// Reads 8 bytes and parses them as a command header.
    fn read_prefix(&mut self) -> (r: Result<Prefixes, TransferError>)
        ensures
            match r {
                Ok(p) => {
                    &&& old(self).incoming().len() >= PREFIX_LENGTH
                    &&& Some(p) == Prefixes::spec_parse(
                        old(self).incoming().take(PREFIX_LENGTH as int),
                    )
                    &&& final(self).incoming() == old(self).incoming().skip(PREFIX_LENGTH as int)
                    &&& final(self).outgoing() == old(self).outgoing()
                    &&& final(self).block_size_spec() == old(self).block_size_spec()
                },
                Err(_) => *final(self) == *old(self),
            },
    ;

    fn block_size(&self) -> (r: usize)
        ensures
            r == self.block_size_spec(),
    ;

    /// Receives one block into the front of the buffer.
    fn read_block(&mut self, buffer: &mut Vec<u8>) -> (r: Result<usize, TransferError>)
        ensures
            match r {
                Ok(n) => {
                    &&& n == old(self).block_size_spec()
                    &&& n <= old(self).incoming().len()
                    &&& n <= old(buffer).len()
                    &&& final(buffer)@.len() == old(buffer)@.len()
                    &&& final(buffer)@.take(n as int) == old(self).incoming().take(n as int)
                    &&& forall|i: int|
                        n <= i < old(buffer)@.len() ==> final(buffer)@[i] == old(buffer)@[i]
                    &&& final(self).incoming() == old(self).incoming().skip(n as int)
                    &&& final(self).outgoing() == old(self).outgoing()
                    &&& final(self).block_size_spec() == old(self).block_size_spec()
                },
                Err(_) => *final(self) == *old(self) && final(buffer)@ == old(buffer)@,
            },
    ;

    /// Hands one block over for sending; the slice must be exactly one block.
    fn write_block(&mut self, bytes: &[u8]) -> (r: Result<usize, TransferError>)
        ensures
            match r {
                Ok(n) => {
                    &&& n == old(self).block_size_spec()
                    &&& bytes@.len() == n
                    &&& final(self).outgoing() == old(self).outgoing() + bytes@
                    &&& final(self).incoming() == old(self).incoming()
                    &&& final(self).block_size_spec() == old(self).block_size_spec()
                },
                Err(_) => *final(self) == *old(self),
            },
    ;
}

} // verus!
