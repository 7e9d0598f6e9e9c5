use vstd::prelude::*;

verus! {

/// The ways a transfer can fail. Every failure is fatal to the session that
/// raised it; nothing is retried inside the protocol core.
#[derive(Clone, Copy, Debug, PartialEq, Eq, Structural)]
pub enum TransferError {
    /// A header's declared length field disagrees with the actual length of
    /// the name or content it was built for.
    HeaderMismatch,
    /// Bytes that should spell a file name are not valid text.
    MalformedText,
    /// The transport could not move a full header or block.
    TransportFailure,
    /// The storage collaborator refused to open, read or write.
    StorageFailure,
}

} // verus!
