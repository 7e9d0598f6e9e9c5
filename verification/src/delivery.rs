use crate::client::{ClientCommandState, ReadState, WriteState};
use crate::lengths::{len32, lemma_len32_acc};
use crate::server::{ReadCommandState, ServerCommandState, WriteCommandState};
use crate::storage::{FileContentStorer, FileReader, FileRetriever, FileWriter};
use vstd::prelude::*;

verus! {

// The paired transfer machines deliver bytes exactly. Each machine's step
// relations tie its state to the stream of meaningful bytes it has pushed or
// taken so far; the transport moves that stream between the two sides, block
// by block, without either side assuming anything about where blocks fall.
// The laws below say what that adds up to once a transfer completes: whatever
// blocking the transport chose, the receiving side ends up holding exactly
// the bytes the sending side started from.

/// Write path, initiator to responder: when a write transfer has pushed its
/// whole stream, a responder write command has finished, both were built from
/// headers declaring the same lengths, and the responder consumed exactly the
/// stream the initiator pushed, then the responder holds exactly the original
/// name, and its sink holds exactly the original content.
pub proof fn lemma_write_delivery<F: FileRetriever, W: FileWriter>(
    c: &WriteState<F>,
    s: &WriteCommandState<W>,
)
    requires
        c.wf(),
        s.wf(),
        !c.needs_push_spec(),
        s.finished,
        s.prefix.file_name_length == c.prefix.file_name_length,
        s.prefix.file_length == c.prefix.file_length,
        s.taken_of() == c.pushed_of(),
    ensures
        s.file_name@ == c.switch_name@,
        s.sunk_of() == c.file.content(),
{
    assert(c.pushed_of() =~= c.switch_name@ + c.file.content());
    let nl = c.switch_name@.len() as int;
    assert(s.file_name@.len() == nl);
    assert forall|i: int| 0 <= i < nl implies s.file_name@[i] == c.switch_name@[i] by {
        assert(s.taken_of()[i] == s.file_name@[i]);
        assert(c.pushed_of()[i] == c.switch_name@[i]);
    };
    assert(s.file_name@ =~= c.switch_name@);
    assert forall|j: int| 0 <= j < s.sunk_of().len() implies s.sunk_of()[j] == c.file.content()[
        j
    ] by {
        assert(s.taken_of()[nl + j] == s.sunk_of()[j]);
        assert(c.pushed_of()[nl + j] == c.file.content()[j]);
    };
    assert(s.sunk_of() =~= c.file.content());
}

/// Read path, responder to initiator: when a responder read command has
/// finished streaming its content (which must fit the 4-byte length field),
/// a read transfer has consumed the whole response, and what the initiator
/// consumed is exactly what the responder emitted, then the length the
/// initiator reassembled is the content's actual length, and its sink holds
/// exactly the content.
pub proof fn lemma_read_delivery<R: FileReader, S: FileContentStorer>(
    s: &ReadCommandState<R>,
    c: &ReadState<S>,
)
    requires
        s.wf(),
        c.wf(),
        s.finished,
        c.pull_idx >= 4,
        c.pull_idx == c.file_size + 4,
        s.file.content().len() <= 0xFFFFFFFF,
        c.received_of() == s.sent_of(),
    ensures
        c.file_size == s.file.content().len(),
        c.sunk_of() == s.file.content(),
{
    let content = s.file.content();
    let l64 = (content.len() as usize) as u64;
    assert(s.sent_of() =~= len32(l64) + content);
    assert(c.len_seen@.len() == 4);
    assert forall|i: int| 0 <= i < 4 implies c.len_seen@[i] == len32(l64)[i] by {
        assert(c.received_of()[i] == c.len_seen@[i]);
        assert(s.sent_of()[i] == len32(l64)[i]);
    };
    assert(c.len_seen@ =~= len32(l64));
    lemma_len32_acc(l64);
    assert forall|j: int| 0 <= j < c.sunk_of().len() implies c.sunk_of()[j] == content[j] by {
        assert(c.received_of()[4 + j] == c.sunk_of()[j]);
        assert(s.sent_of()[4 + j] == content[j]);
    };
    assert(c.sunk_of().len() == content.len());
    assert(c.sunk_of() =~= content);
}

} // verus!
