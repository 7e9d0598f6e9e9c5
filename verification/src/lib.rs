//! A block-oriented file-transfer protocol: an 8-byte command header codec
//! and the paired client/server state machines that stream a file name and
//! its content across a transport whose blocks need not align with any
//! logical field boundary.

pub mod bytes;
pub mod client;
pub mod delivery;
pub mod errors;
pub mod interface;
pub mod lengths;
pub mod prefixes;
pub mod server;
pub mod storage;
pub mod test_impl;
pub mod text;
