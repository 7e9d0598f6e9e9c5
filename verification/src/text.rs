use vstd::prelude::*;

verus! {

/// The byte sequences that spell well-formed text: exactly the ones
/// `core::str::from_utf8` accepts.
pub uninterp spec fn is_text(s: Seq<u8>) -> bool;

/// Relies on core::str::from_utf8: it succeeds exactly on well-formed UTF-8,
/// and its documentation guarantees that any all-ASCII sequence (every byte
/// below 128) is well-formed.
#[verifier::external_body]
pub(crate) fn utf8_check(bytes: &[u8]) -> (r: bool)
    ensures
        r == is_text(bytes@),
        (forall|i: int| 0 <= i < bytes@.len() ==> bytes@[i] < 128) ==> r,
{
    core::str::from_utf8(bytes).is_ok()
}

} // verus!
