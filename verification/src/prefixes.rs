use vstd::prelude::*;

verus! {

/// Every command starts with a header of exactly this many bytes.
pub const PREFIX_LENGTH: usize = 8;

// --- byte-level model ------------------------------------------------------
//
// All multi-byte header fields travel most-significant byte first. The spec
// functions below mirror the executable extraction and assembly expressions
// so that the codec's contracts can be stated purely over them.

pub open spec fn u16_hi(x: u16) -> u8 {
    ((x & 0xFF00) >> 8) as u8
}

pub open spec fn u16_lo(x: u16) -> u8 {
    (x & 0x00FF) as u8
}

pub open spec fn u32_b0(x: u32) -> u8 {
    ((x & 0xFF000000) >> 24) as u8
}

pub open spec fn u32_b1(x: u32) -> u8 {
    ((x & 0xFF0000) >> 16) as u8
}

pub open spec fn u32_b2(x: u32) -> u8 {
    ((x & 0xFF00) >> 8) as u8
}

pub open spec fn u32_b3(x: u32) -> u8 {
    (x & 0xFF) as u8
}

pub open spec fn be16(hi: u8, lo: u8) -> u16 {
    ((hi as u16) << 8) | (lo as u16)
}

pub open spec fn be32(b0: u8, b1: u8, b2: u8, b3: u8) -> u32 {
    ((b0 as u32) << 24) | ((b1 as u32) << 16) | ((b2 as u32) << 8) | (b3 as u32)
}

/// Splitting a 16-bit value into its two big-endian bytes loses nothing.
pub proof fn lemma_u16_roundtrip(x: u16)
    ensures
        be16(u16_hi(x), u16_lo(x)) == x,
{
    assert(((((x & 0xFF00) >> 8) as u8) as u16) << 8 | (((x & 0x00FF) as u8) as u16) == x)
        by (bit_vector);
}

/// Splitting a 32-bit value into its four big-endian bytes loses nothing.
pub proof fn lemma_u32_roundtrip(x: u32)
    ensures
        be32(u32_b0(x), u32_b1(x), u32_b2(x), u32_b3(x)) == x,
{
    assert(((((x & 0xFF000000) >> 24) as u8) as u32) << 24
        | ((((x & 0xFF0000) >> 16) as u8) as u32) << 16
        | ((((x & 0xFF00) >> 8) as u8) as u32) << 8
        | (((x & 0xFF) as u8) as u32) == x) by (bit_vector);
}

/// Bit 7 of the leading flag byte is exactly the 0x8000 bit of the flags.
pub proof fn lemma_hi_bit(x: u16)
    ensures
        (u16_hi(x) & 128 == 0) <==> (x < 0x8000),
{
    assert(((((x & 0xFF00) >> 8) as u8) & 128 == 0) <==> (x < 0x8000)) by (bit_vector);
}

// --- executable byte extraction --------------------------------------------

/// Splits a 16-bit field into (most significant, least significant) bytes.
#[inline]
pub fn extract_bytes_u16(inp: u16) -> (r: (u8, u8))
    ensures
        r.0 == u16_hi(inp),
        r.1 == u16_lo(inp),
{
    let first = ((inp & 0xFF00) >> 8) as u8;
    let second = (inp & 0x00FF) as u8;
    (first, second)
}

/// Splits a 32-bit field into its four bytes, most significant first.
#[inline]
pub fn extract_bytes_u32(inp: u32) -> (r: (u8, u8, u8, u8))
    ensures
        r.0 == u32_b0(inp),
        r.1 == u32_b1(inp),
        r.2 == u32_b2(inp),
        r.3 == u32_b3(inp),
{
    let last = (inp & 0xFF) as u8;
    let third = ((inp & 0xFF00) >> 8) as u8;
    let second = ((inp & 0xFF0000) >> 16) as u8;
    let head = ((inp & 0xFF000000) >> 24) as u8;

    (head, second, third, last)
}

// --- the two header shapes -------------------------------------------------

/// Header of a command that reads a remote file: the responder will answer
/// with a 4-byte big-endian content length followed by the content itself.
/// Bit 7 of the first flag byte is 0 on the wire.
#[derive(Clone, Copy, Eq, PartialEq, Debug)]
pub struct ReadPrefix {
    pub flags: u16,
    pub file_name_length: u16,
}

/// Header of a command that writes a local file to the remote side: the
/// initiator follows it with the name bytes and then the content bytes.
/// Bit 7 of the first flag byte is 1 on the wire.
#[derive(Clone, Copy, Eq, PartialEq, Debug)]
pub struct WritePrefix {
    pub flags: u16,
    pub file_name_length: u16,
    pub file_length: u32,
}

pub open spec fn spec_read_serial(p: ReadPrefix) -> Seq<u8> {
    seq![
        u16_hi(p.flags),
        u16_lo(p.flags),
        u16_hi(p.file_name_length),
        u16_lo(p.file_name_length),
        0u8,
        0u8,
        0u8,
        0u8,
    ]
}

pub open spec fn spec_write_serial(p: WritePrefix) -> Seq<u8> {
    seq![
        u16_hi(p.flags),
        u16_lo(p.flags),
        u16_hi(p.file_name_length),
        u16_lo(p.file_name_length),
        u32_b0(p.file_length),
        u32_b1(p.file_length),
        u32_b2(p.file_length),
        u32_b3(p.file_length),
    ]
}

pub open spec fn spec_read_fields(b: Seq<u8>) -> ReadPrefix
    recommends
        b.len() == PREFIX_LENGTH,
{
    ReadPrefix { flags: be16(b[0], b[1]), file_name_length: be16(b[2], b[3]) }
}

pub open spec fn spec_write_fields(b: Seq<u8>) -> WritePrefix
    recommends
        b.len() == PREFIX_LENGTH,
{
    WritePrefix {
        flags: be16(b[0], b[1]),
        file_name_length: be16(b[2], b[3]),
        file_length: be32(b[4], b[5], b[6], b[7]),
    }
}

// --- the codec interface ---------------------------------------------------

/// A header shape that can move between its fields and its 8 wire bytes.
/// Each implementor fixes, as spec functions, exactly which byte sequences it
/// accepts and which bytes it emits; the executable codec is proved against
/// those.
pub trait CommandPrefix: Sized {
    /// Which headers (if any) these wire bytes denote for this shape.
    spec fn spec_parse(b: Seq<u8>) -> Option<Self>;

    /// The wire bytes this header serializes to.
    spec fn spec_serial(&self) -> Seq<u8>;

    fn parse_prefix(prefix: [u8; PREFIX_LENGTH]) -> (r: Option<Self>)
        ensures
            r == Self::spec_parse(prefix@),
    ;

    fn serialize(&self) -> (r: [u8; PREFIX_LENGTH])
        ensures
            r@ == self.spec_serial(),
    ;
}

impl CommandPrefix for ReadPrefix {
    open spec fn spec_parse(b: Seq<u8>) -> Option<ReadPrefix> {
        if b.len() == PREFIX_LENGTH && b[0] & 128 == 0 {
            Some(spec_read_fields(b))
        } else {
            None
        }
    }

    open spec fn spec_serial(&self) -> Seq<u8> {
        spec_read_serial(*self)
    }

    fn parse_prefix(prefix: [u8; PREFIX_LENGTH]) -> (r: Option<ReadPrefix>) {
        proof {
            assert(ReadPrefix::spec_parse(prefix@) == (if prefix@[0] & 128 == 0 {
                Some(spec_read_fields(prefix@))
            } else {
                None
            }));
        }
        if prefix[0] & 128 != 0 {
            return None;
        }
        let flags: u16 = ((prefix[0] as u16) << 8) | (prefix[1] as u16);
        let file_name_length: u16 = ((prefix[2] as u16) << 8) | (prefix[3] as u16);
        Some(ReadPrefix { flags, file_name_length })
    }

    fn serialize(&self) -> (r: [u8; PREFIX_LENGTH]) {
        let flag_bytes = extract_bytes_u16(self.flags);
        let name_length_bytes = extract_bytes_u16(self.file_name_length);
        let r = [
            flag_bytes.0,
            flag_bytes.1,
            name_length_bytes.0,
            name_length_bytes.1,
            0,
            0,
            0,
            0,
        ];
        proof {
            assert(r@ =~= spec_read_serial(*self));
        }
        r
    }
}

impl CommandPrefix for WritePrefix {
    open spec fn spec_parse(b: Seq<u8>) -> Option<WritePrefix> {
        if b.len() == PREFIX_LENGTH && b[0] & 128 != 0 {
            Some(spec_write_fields(b))
        } else {
            None
        }
    }

    open spec fn spec_serial(&self) -> Seq<u8> {
        spec_write_serial(*self)
    }

    fn parse_prefix(prefix: [u8; PREFIX_LENGTH]) -> (r: Option<WritePrefix>) {
        proof {
            assert(WritePrefix::spec_parse(prefix@) == (if prefix@[0] & 128 != 0 {
                Some(spec_write_fields(prefix@))
            } else {
                None
            }));
        }
        if prefix[0] & 128 == 0 {
            return None;
        }
        let flags: u16 = ((prefix[0] as u16) << 8) | (prefix[1] as u16);
        let file_name_length: u16 = ((prefix[2] as u16) << 8) | (prefix[3] as u16);
        let file_length: u32 = ((prefix[4] as u32) << 24) | ((prefix[5] as u32) << 16)
            | ((prefix[6] as u32) << 8) | (prefix[7] as u32);
        Some(WritePrefix { flags, file_name_length, file_length })
    }

    fn serialize(&self) -> (r: [u8; PREFIX_LENGTH]) {
        let flag_bytes = extract_bytes_u16(self.flags);
        let name_length_bytes = extract_bytes_u16(self.file_name_length);
        let file_length_bytes = extract_bytes_u32(self.file_length);

        let r = [
            flag_bytes.0,
            flag_bytes.1,
            name_length_bytes.0,
            name_length_bytes.1,
            file_length_bytes.0,
            file_length_bytes.1,
            file_length_bytes.2,
            file_length_bytes.3,
        ];
        proof {
            assert(r@ =~= spec_write_serial(*self));
        }
        r
    }
}

/// The closed union of the two command shapes.
#[derive(Clone, Copy, Eq, PartialEq, Debug)]
pub enum Prefixes {
    Write(WritePrefix),
    Read(ReadPrefix),
}

impl CommandPrefix for Prefixes {
    open spec fn spec_parse(b: Seq<u8>) -> Option<Prefixes> {
        if b.len() == PREFIX_LENGTH {
            if b[0] & 128 != 0 {
                Some(Prefixes::Write(spec_write_fields(b)))
            } else {
                Some(Prefixes::Read(spec_read_fields(b)))
            }
        } else {
            None
        }
    }

    open spec fn spec_serial(&self) -> Seq<u8> {
        match *self {
            Prefixes::Write(w) => spec_write_serial(w),
            Prefixes::Read(r) => spec_read_serial(r),
        }
    }

    fn parse_prefix(prefix: [u8; PREFIX_LENGTH]) -> (r: Option<Prefixes>) {
        match WritePrefix::parse_prefix(prefix) {
            Some(w) => Some(Prefixes::Write(w)),
            None => match ReadPrefix::parse_prefix(prefix) {
                Some(p) => Some(Prefixes::Read(p)),
                None => None,
            },
        }
    }

    fn serialize(&self) -> (r: [u8; PREFIX_LENGTH]) {
        match self {
            Prefixes::Write(w) => w.serialize(),
            Prefixes::Read(p) => p.serialize(),
        }
    }
}

// --- laws ------------------------------------------------------------------

/// A header is valid when its flag word agrees with the discriminator bit its
/// shape puts on the wire: bit 15 clear for a read, set for a write.
pub open spec fn prefix_valid(p: Prefixes) -> bool {
    match p {
        Prefixes::Read(r) => r.flags < 0x8000,
        Prefixes::Write(w) => w.flags >= 0x8000,
    }
}

/// Round trip: parsing the bytes a valid header serializes to yields that
/// header back, for both shapes.
pub proof fn lemma_parse_serialize(p: Prefixes)
    requires
        prefix_valid(p),
    ensures
        Prefixes::spec_parse(p.spec_serial()) == Some(p),
{
    match p {
        Prefixes::Read(r) => {
            lemma_hi_bit(r.flags);
            lemma_u16_roundtrip(r.flags);
            lemma_u16_roundtrip(r.file_name_length);
            assert(Prefixes::spec_parse(p.spec_serial()) == Some(p));
        },
        Prefixes::Write(w) => {
            lemma_hi_bit(w.flags);
            lemma_u16_roundtrip(w.flags);
            lemma_u16_roundtrip(w.file_name_length);
            lemma_u32_roundtrip(w.file_length);
            assert(Prefixes::spec_parse(p.spec_serial()) == Some(p));
        },
    }
}

/// Exclusive discrimination: every 8-byte buffer parses, and bit 7 of byte 0
/// alone decides which of the two shapes comes out.
pub proof fn lemma_parse_total(b: Seq<u8>)
    requires
        b.len() == PREFIX_LENGTH,
    ensures
        Prefixes::spec_parse(b) is Some,
        (Prefixes::spec_parse(b) matches Some(Prefixes::Read(_))) <==> b[0] & 128 == 0,
        (Prefixes::spec_parse(b) matches Some(Prefixes::Write(_))) <==> b[0] & 128 != 0,
{
}

} // verus!
