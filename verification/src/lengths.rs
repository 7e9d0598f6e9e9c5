use vstd::prelude::*;

verus! {

// The server answers a read command with a 4-byte big-endian content length
// before the content itself. The client reassembles that field one byte at a
// time, because a transport block may end anywhere inside it. This module
// gives both sides their common model: the four bytes a length serializes to,
// and the value an arbitrary prefix of those bytes has accumulated to.

/// The 4 wire bytes of a content length, most significant byte first.
pub open spec fn len32(n: u64) -> Seq<u8> {
    seq![
        ((n >> 24) & 0xFF) as u8,
        ((n >> 16) & 0xFF) as u8,
        ((n >> 8) & 0xFF) as u8,
        (n & 0xFF) as u8,
    ]
}

/// The value accumulated after consuming the given prefix (up to 4 bytes) of
/// a big-endian length field: each byte lands at position `(3 - i) * 8`.
pub open spec fn be_acc(s: Seq<u8>) -> int
    recommends
        s.len() <= 4,
{
    (if s.len() > 0 {
        (s[0] as int) * 0x1000000
    } else {
        0
    }) + (if s.len() > 1 {
        (s[1] as int) * 0x10000
    } else {
        0
    }) + (if s.len() > 2 {
        (s[2] as int) * 0x100
    } else {
        0
    }) + (if s.len() > 3 {
        (s[3] as int) * 1
    } else {
        0
    })
}

/// A full 4-byte field reassembles to the value it was built from.
pub proof fn lemma_len32_acc(n: u64)
    requires
        n <= 0xFFFFFFFF,
    ensures
        be_acc(len32(n)) == n,
{
    assert((((n >> 24) & 0xFF) as u8) as int * 0x1000000 + (((n >> 16) & 0xFF) as u8) as int
        * 0x10000 + (((n >> 8) & 0xFF) as u8) as int * 0x100 + ((n & 0xFF) as u8) as int
        == n as int) by (bit_vector)
        requires
            n <= 0xFFFFFFFF,
    ;
}

/// One step of in-place reassembly: while the lanes below the current
/// position are still zero, or-ing the next byte into its position is the
/// same as adding it at its big-endian weight.
pub proof fn lemma_or_step(fs: u64, b: u8, p: u64)
    requires
        p < 4,
        fs <= 0xFFFFFFFF,
        p == 0 ==> fs == 0,
        p == 1 ==> fs % 0x1000000 == 0,
        p == 2 ==> fs % 0x10000 == 0,
        p == 3 ==> fs % 0x100 == 0,
    ensures
        (fs | ((b as u64) << ((3 - p) * 8))) == fs + (b as u64) * (if p == 0 {
            0x1000000u64
        } else if p == 1 {
            0x10000u64
        } else if p == 2 {
            0x100u64
        } else {
            1u64
        }),
        fs | ((b as u64) << ((3 - p) * 8)) <= 0xFFFFFFFF,
{
    if p == 0 {
        assert(fs == 0 ==> (fs | ((b as u64) << ((3 - 0) * 8))) == fs + (b as u64) * 0x1000000
            && (fs | ((b as u64) << ((3 - 0) * 8))) <= 0xFFFFFFFFu64) by (bit_vector);
    } else if p == 1 {
        assert(fs <= 0xFFFFFFFFu64 && fs % 0x1000000 == 0 ==> (fs | ((b as u64) << ((3 - 1) * 8)))
            == fs + (b as u64) * 0x10000 && (fs | ((b as u64) << ((3 - 1) * 8)))
            <= 0xFFFFFFFFu64) by (bit_vector);
    } else if p == 2 {
        assert(fs <= 0xFFFFFFFFu64 && fs % 0x10000 == 0 ==> (fs | ((b as u64) << ((3 - 2) * 8)))
            == fs + (b as u64) * 0x100 && (fs | ((b as u64) << ((3 - 2) * 8)))
            <= 0xFFFFFFFFu64) by (bit_vector);
    } else {
        assert(fs <= 0xFFFFFFFFu64 && fs % 0x100 == 0 ==> (fs | ((b as u64) << ((3 - 3) * 8))) == fs
            + (b as u64) * 1 && (fs | ((b as u64) << ((3 - 3) * 8))) <= 0xFFFFFFFFu64)
            by (bit_vector);
    }
}

/// The lanes below the accumulated prefix are zero, which is what
/// `lemma_or_step` needs before the next byte arrives.
pub proof fn lemma_be_acc_lanes(s: Seq<u8>)
    requires
        s.len() < 4,
    ensures
        s.len() == 1 ==> be_acc(s) % 0x1000000 == 0,
        s.len() == 2 ==> be_acc(s) % 0x10000 == 0,
        s.len() == 3 ==> be_acc(s) % 0x100 == 0,
{
    let a = if s.len() > 0 {
        s[0] as int
    } else {
        0int
    };
    let b = if s.len() > 1 {
        s[1] as int
    } else {
        0int
    };
    let c = if s.len() > 2 {
        s[2] as int
    } else {
        0int
    };
    if s.len() == 1 {
        assert(be_acc(s) == a * 0x1000000);
        assert((a * 0x1000000) % 0x1000000 == 0) by (nonlinear_arith);
    } else if s.len() == 2 {
        assert(be_acc(s) == a * 0x1000000 + b * 0x10000);
        assert((a * 0x1000000 + b * 0x10000) % 0x10000 == 0) by (nonlinear_arith);
    } else if s.len() == 3 {
        assert(be_acc(s) == a * 0x1000000 + b * 0x10000 + c * 0x100);
        assert((a * 0x1000000 + b * 0x10000 + c * 0x100) % 0x100 == 0) by (nonlinear_arith);
    }
}

/// Appending the next byte to the prefix adds it at its big-endian weight.
pub proof fn lemma_be_acc_push(s: Seq<u8>, b: u8)
    requires
        s.len() < 4,
    ensures
        be_acc(s.push(b)) == be_acc(s) + (b as int) * (if s.len() == 0 {
            0x1000000int
        } else if s.len() == 1 {
            0x10000int
        } else if s.len() == 2 {
            0x100int
        } else {
            1int
        }),
{
    let t = s.push(b);
    assert(t.len() == s.len() + 1);
    assert(forall|i: int| 0 <= i < s.len() ==> t[i] == s[i]);
    assert(t[s.len() as int] == b);
}

} // verus!
