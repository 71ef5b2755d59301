//! Primitive binary layer: endian-correct reads and writes of 8/16/32/64-bit
//! integers and of the fixed-point words, over in-memory byte streams.
//!
//! Whatever the host byte order, every multi-byte quantity is big-endian on
//! the wire.  A read fails with [`CodecError::UnexpectedEof`] when fewer
//! bytes than requested remain, and leaves the stream position unmoved.

use vstd::prelude::*;
use crate::error::CodecError;
use crate::fixed::Fixed;
use crate::fixed::sat_s15;
use crate::S15F16;

verus! {

/// A byte stream being consumed front to back.
pub struct ByteReader {
    pub data: Vec<u8>,
    pub pos: usize,
}

/// A byte sink that collects everything written to it.
pub struct ByteWriter {
    pub data: Vec<u8>,
}

/// An XYZ triple of exact real values, the decoded form of three signed
/// 15.16 words.
#[derive(Copy, Clone, Debug, Eq, PartialEq, Structural)]
pub struct XyzNumber {
    pub x: Fixed,
    pub y: Fixed,
    pub z: Fixed,
}

/// The word two bytes form when read big-endian.
pub open spec fn be_u16(b0: u8, b1: u8) -> int {
    (b0 as int) * 0x100 + (b1 as int)
}

/// The word four bytes form when read big-endian.
pub open spec fn be_u32(b0: u8, b1: u8, b2: u8, b3: u8) -> int {
    (b0 as int) * 0x100_0000 + (b1 as int) * 0x1_0000 + (b2 as int) * 0x100 + (b3 as int)
}

/// The word eight bytes form when read big-endian.
pub open spec fn be_u64(s: Seq<u8>) -> int {
    (s[0] as int) * 0x100_0000_0000_0000 + (s[1] as int) * 0x1_0000_0000_0000 + (s[2] as int)
        * 0x100_0000_0000 + (s[3] as int) * 0x1_0000_0000 + (s[4] as int) * 0x100_0000 + (
    s[5] as int) * 0x1_0000 + (s[6] as int) * 0x100 + (s[7] as int)
}

/// The signed value four bytes hold in big-endian two's complement.
pub open spec fn be_i32(b0: u8, b1: u8, b2: u8, b3: u8) -> int {
    if be_u32(b0, b1, b2, b3) >= 0x8000_0000 {
        be_u32(b0, b1, b2, b3) - 0x1_0000_0000
    } else {
        be_u32(b0, b1, b2, b3)
    }
}

/// The big-endian bytes of a 16-bit word.
pub open spec fn u16_be_bytes(v: u16) -> Seq<u8> {
    seq![(v / 0x100) as u8, (v % 0x100) as u8]
}

/// The big-endian bytes of a 32-bit word.
pub open spec fn u32_be_bytes(v: u32) -> Seq<u8> {
    seq![
        (v / 0x100_0000) as u8,
        ((v / 0x1_0000) % 0x100) as u8,
        ((v / 0x100) % 0x100) as u8,
        (v % 0x100) as u8,
    ]
}

/// The big-endian bytes of a 64-bit word.
pub open spec fn u64_be_bytes(v: u64) -> Seq<u8> {
    seq![
        (v / 0x100_0000_0000_0000) as u8,
        ((v / 0x1_0000_0000_0000) % 0x100) as u8,
        ((v / 0x100_0000_0000) % 0x100) as u8,
        ((v / 0x1_0000_0000) % 0x100) as u8,
        ((v / 0x100_0000) % 0x100) as u8,
        ((v / 0x1_0000) % 0x100) as u8,
        ((v / 0x100) % 0x100) as u8,
        (v % 0x100) as u8,
    ]
}

/// The two's-complement 32-bit word a signed value in range maps to.
pub open spec fn i32_as_u32(v: int) -> int {
    if v < 0 {
        v + 0x1_0000_0000
    } else {
        v
    }
}

/// The big-endian bytes of a signed 15.16 word, written through its
/// two's-complement form.
pub open spec fn s15f16_be_bytes(v: int) -> Seq<u8> {
    u32_be_bytes(i32_as_u32(v) as u32)
}

/// The run of `n` bytes of `s` that starts at `from`.  Total: out of range
/// it reads as an arbitrary byte, and a negative count as an empty run.
pub open spec fn bytes_at(s: Seq<u8>, from: int, n: int) -> Seq<u8> {
    Seq::new(
        if n >= 0 {
            n as nat
        } else {
            0
        },
        |j: int| s[from + j],
    )
}

impl ByteReader {
    /// How many bytes are left to read.
    pub open spec fn remaining_spec(&self) -> int {
        if self.pos <= self.data@.len() {
            self.data@.len() - self.pos
        } else {
            0
        }
    }

    /// A reader standing at the front of the given bytes.
    pub fn new(data: Vec<u8>) -> (r: ByteReader)
        ensures
            r.data@ == data@,
            r.pos == 0,
    {
        ByteReader { data, pos: 0 }
    }

    /// How many bytes are left to read.
    pub fn remaining(&self) -> (n: usize)
        ensures
            n == self.remaining_spec(),
    {
        if self.pos <= self.data.len() {
            self.data.len() - self.pos
        } else {
            0
        }
    }
}

impl ByteWriter {
    /// An empty sink.
    pub fn new() -> (r: ByteWriter)
        ensures
            r.data@.len() == 0,
    {
        ByteWriter { data: Vec::new() }
    }
}

/// Reads one byte.
pub fn read_u8(reader: &mut ByteReader) -> (r: Result<u8, CodecError>)
    ensures
        final(reader).data@ == old(reader).data@,
        match r {
            Ok(v) => {
                &&& old(reader).remaining_spec() >= 1
                &&& final(reader).pos == old(reader).pos + 1
                &&& v == old(reader).data@[old(reader).pos as int]
            },
            Err(e) => {
                &&& e == CodecError::UnexpectedEof
                &&& old(reader).remaining_spec() < 1
                &&& final(reader).pos == old(reader).pos
            },
        },
{
    if reader.pos < reader.data.len() {
        let b = reader.data[reader.pos];
        reader.pos = reader.pos + 1;
        Ok(b)
    } else {
        Err(CodecError::UnexpectedEof)
    }
}

/// Reads a big-endian 16-bit word.
pub fn read_u16(reader: &mut ByteReader) -> (r: Result<u16, CodecError>)
    ensures
        final(reader).data@ == old(reader).data@,
        match r {
            Ok(v) => {
                &&& old(reader).remaining_spec() >= 2
                &&& final(reader).pos == old(reader).pos + 2
                &&& v as int == be_u16(
                    old(reader).data@[old(reader).pos as int],
                    old(reader).data@[old(reader).pos + 1],
                )
            },
            Err(e) => {
                &&& e == CodecError::UnexpectedEof
                &&& old(reader).remaining_spec() < 2
                &&& final(reader).pos == old(reader).pos
            },
        },
{
    if reader.pos < reader.data.len() && reader.data.len() - reader.pos >= 2 {
        let b0 = reader.data[reader.pos];
        let b1 = reader.data[reader.pos + 1];
        reader.pos = reader.pos + 2;
        Ok((b0 as u16) * 0x100 + (b1 as u16))
    } else {
        Err(CodecError::UnexpectedEof)
    }
}

/// Reads a big-endian 32-bit word.
pub fn read_u32(reader: &mut ByteReader) -> (r: Result<u32, CodecError>)
    ensures
        final(reader).data@ == old(reader).data@,
        match r {
            Ok(v) => {
                &&& old(reader).remaining_spec() >= 4
                &&& final(reader).pos == old(reader).pos + 4
                &&& v as int == be_u32(
                    old(reader).data@[old(reader).pos as int],
                    old(reader).data@[old(reader).pos + 1],
                    old(reader).data@[old(reader).pos + 2],
                    old(reader).data@[old(reader).pos + 3],
                )
            },
            Err(e) => {
                &&& e == CodecError::UnexpectedEof
                &&& old(reader).remaining_spec() < 4
                &&& final(reader).pos == old(reader).pos
            },
        },
{
    if reader.pos < reader.data.len() && reader.data.len() - reader.pos >= 4 {
        let b0 = reader.data[reader.pos];
        let b1 = reader.data[reader.pos + 1];
        let b2 = reader.data[reader.pos + 2];
        let b3 = reader.data[reader.pos + 3];
        reader.pos = reader.pos + 4;
        Ok(
            (b0 as u32) * 0x100_0000 + (b1 as u32) * 0x1_0000 + (b2 as u32) * 0x100 + (b3 as u32),
        )
    } else {
        Err(CodecError::UnexpectedEof)
    }
}

/// Reads a big-endian 64-bit word.
pub fn read_u64(reader: &mut ByteReader) -> (r: Result<u64, CodecError>)
    ensures
        final(reader).data@ == old(reader).data@,
        match r {
            Ok(v) => {
                &&& old(reader).remaining_spec() >= 8
                &&& final(reader).pos == old(reader).pos + 8
                &&& v as int == be_u64(
                    old(reader).data@.subrange(
                        old(reader).pos as int,
                        old(reader).pos + 8,
                    ),
                )
            },
            Err(e) => {
                &&& e == CodecError::UnexpectedEof
                &&& old(reader).remaining_spec() < 8
                &&& final(reader).pos == old(reader).pos
            },
        },
{
    if reader.pos < reader.data.len() && reader.data.len() - reader.pos >= 8 {
        let b0 = reader.data[reader.pos];
        let b1 = reader.data[reader.pos + 1];
        let b2 = reader.data[reader.pos + 2];
        let b3 = reader.data[reader.pos + 3];
        let b4 = reader.data[reader.pos + 4];
        let b5 = reader.data[reader.pos + 5];
        let b6 = reader.data[reader.pos + 6];
        let b7 = reader.data[reader.pos + 7];
        reader.pos = reader.pos + 8;
        let hi = (b0 as u64) * 0x100_0000 + (b1 as u64) * 0x1_0000 + (b2 as u64) * 0x100 + (
        b3 as u64);
        let lo = (b4 as u64) * 0x100_0000 + (b5 as u64) * 0x1_0000 + (b6 as u64) * 0x100 + (
        b7 as u64);
        let v = hi * 0x1_0000_0000 + lo;
        proof {
            let s = old(reader).data@.subrange(old(reader).pos as int, old(reader).pos + 8);
            assert(s[0] == b0 && s[1] == b1 && s[2] == b2 && s[3] == b3);
            assert(s[4] == b4 && s[5] == b5 && s[6] == b6 && s[7] == b7);
        }
        Ok(v)
    } else {
        Err(CodecError::UnexpectedEof)
    }
}

/// Reads `count` big-endian 16-bit words.
pub fn read_u16_array(reader: &mut ByteReader, count: usize) -> (r: Result<
    Vec<u16>,
    CodecError,
>)
    ensures
        final(reader).data@ == old(reader).data@,
        match r {
            Ok(vs) => {
                &&& old(reader).remaining_spec() >= 2 * count
                &&& final(reader).pos == old(reader).pos + 2 * count
                &&& vs@.len() == count
                &&& forall|i: int|
                    0 <= i < count ==> #[trigger] vs@[i] as int == be_u16(
                        old(reader).data@[old(reader).pos + 2 * i],
                        old(reader).data@[old(reader).pos + 2 * i + 1],
                    )
            },
            Err(e) => {
                &&& e == CodecError::UnexpectedEof
                &&& old(reader).remaining_spec() < 2 * count
                &&& final(reader).pos == old(reader).pos
            },
        },
{
    if reader.remaining() / 2 < count {
        return Err(CodecError::UnexpectedEof);
    }
    let mut out: Vec<u16> = Vec::new();
    let mut i: usize = 0;
    while i < count
        invariant
            i <= count,
            reader.data@ == old(reader).data@,
            reader.pos == old(reader).pos + 2 * i,
            old(reader).remaining_spec() >= 2 * count,
            out@.len() == i,
            forall|j: int|
                0 <= j < i ==> #[trigger] out@[j] as int == be_u16(
                    old(reader).data@[old(reader).pos + 2 * j],
                    old(reader).data@[old(reader).pos + 2 * j + 1],
                ),
        decreases count - i,
    {
        match read_u16(reader) {
            Ok(v) => {
                out.push(v);
            },
            Err(e) => {
                proof {
                    assert(false);
                }
                return Err(e);
            },
        }
        i = i + 1;
    }
    Ok(out)
}

/// Reads a signed 15.16 word and returns its exact value.
pub fn read_s15f16(reader: &mut ByteReader) -> (r: Result<Fixed, CodecError>)
    ensures
        final(reader).data@ == old(reader).data@,
        match r {
            Ok(v) => {
                &&& old(reader).remaining_spec() >= 4
                &&& final(reader).pos == old(reader).pos + 4
                &&& v.raw as int == be_i32(
                    old(reader).data@[old(reader).pos as int],
                    old(reader).data@[old(reader).pos + 1],
                    old(reader).data@[old(reader).pos + 2],
                    old(reader).data@[old(reader).pos + 3],
                )
            },
            Err(e) => {
                &&& e == CodecError::UnexpectedEof
                &&& old(reader).remaining_spec() < 4
                &&& final(reader).pos == old(reader).pos
            },
        },
{
    match read_u32(reader) {
        Ok(u) => {
            #[verifier::truncate]
            let v: i32 = u as i32;
            proof {
                assert((u >= 0x8000_0000u32) ==> ((u as i32) as i64 == (u as i64)
                    - 0x1_0000_0000i64)) by (bit_vector);
                assert((u < 0x8000_0000u32) ==> ((u as i32) as i64 == (u as i64)))
                    by (bit_vector);
            }
            Ok(Fixed::from_s15f16(v))
        },
        Err(e) => Err(e),
    }
}

/// Reads three signed 15.16 words into an XYZ triple.
pub fn read_xyz(reader: &mut ByteReader) -> (r: Result<XyzNumber, CodecError>)
    ensures
        final(reader).data@ == old(reader).data@,
        match r {
            Ok(v) => {
                &&& old(reader).remaining_spec() >= 12
                &&& final(reader).pos == old(reader).pos + 12
                &&& v.x.raw as int == be_i32(
                    old(reader).data@[old(reader).pos as int],
                    old(reader).data@[old(reader).pos + 1],
                    old(reader).data@[old(reader).pos + 2],
                    old(reader).data@[old(reader).pos + 3],
                )
                &&& v.y.raw as int == be_i32(
                    old(reader).data@[old(reader).pos + 4],
                    old(reader).data@[old(reader).pos + 5],
                    old(reader).data@[old(reader).pos + 6],
                    old(reader).data@[old(reader).pos + 7],
                )
                &&& v.z.raw as int == be_i32(
                    old(reader).data@[old(reader).pos + 8],
                    old(reader).data@[old(reader).pos + 9],
                    old(reader).data@[old(reader).pos + 10],
                    old(reader).data@[old(reader).pos + 11],
                )
            },
            Err(e) => {
                &&& e == CodecError::UnexpectedEof
                &&& old(reader).remaining_spec() < 12
                &&& final(reader).pos == old(reader).pos
            },
        },
{
    if reader.remaining() < 12 {
        return Err(CodecError::UnexpectedEof);
    }
    let x = match read_s15f16(reader) {
        Ok(v) => v,
        Err(e) => {
            proof {
                assert(false);
            }
            return Err(e);
        },
    };
    let y = match read_s15f16(reader) {
        Ok(v) => v,
        Err(e) => {
            proof {
                assert(false);
            }
            return Err(e);
        },
    };
    let z = match read_s15f16(reader) {
        Ok(v) => v,
        Err(e) => {
            proof {
                assert(false);
            }
            return Err(e);
        },
    };
    Ok(XyzNumber { x, y, z })
}

/// Reads a run of `n` raw bytes.
pub fn read_bytes(reader: &mut ByteReader, n: usize) -> (r: Result<Vec<u8>, CodecError>)
    ensures
        final(reader).data@ == old(reader).data@,
        match r {
            Ok(bs) => {
                &&& old(reader).remaining_spec() >= n
                &&& final(reader).pos == old(reader).pos + n
                &&& bs@ == bytes_at(old(reader).data@, old(reader).pos as int, n as int)
            },
            Err(e) => {
                &&& e == CodecError::UnexpectedEof
                &&& old(reader).remaining_spec() < n
                &&& final(reader).pos == old(reader).pos
            },
        },
{
    if reader.remaining() < n {
        return Err(CodecError::UnexpectedEof);
    }
    let len = reader.data.len();
    let mut out: Vec<u8> = Vec::new();
    let mut i: usize = 0;
    while i < n
        invariant
            i <= n,
            reader.data@ == old(reader).data@,
            reader.pos == old(reader).pos,
            old(reader).remaining_spec() >= n,
            old(reader).data@.len() == len,
            out@.len() == i,
            forall|j: int|
                0 <= j < i ==> #[trigger] out@[j] == old(reader).data@[old(reader).pos + j],
        decreases n - i,
    {
        let b = reader.data[reader.pos + i];
        out.push(b);
        i = i + 1;
    }
    reader.pos = reader.pos + n;
    proof {
        assert(out@ =~= bytes_at(old(reader).data@, old(reader).pos as int, n as int));
    }
    Ok(out)
}

/// Writes a run of raw bytes as they stand.
pub fn write_bytes(writer: &mut ByteWriter, bytes: &[u8]) -> (r: Result<(), CodecError>)
    ensures
        r is Ok,
        final(writer).data@ == old(writer).data@ + bytes@,
{
    let mut i: usize = 0;
    while i < bytes.len()
        invariant
            i <= bytes@.len(),
            writer.data@ == old(writer).data@ + bytes@.take(i as int),
        decreases bytes@.len() - i,
    {
        let b = bytes[i];
        writer.data.push(b);
        proof {
            assert(old(writer).data@ + bytes@.take(i as int) + seq![b] =~= old(writer).data@
                + bytes@.take(i + 1));
        }
        i = i + 1;
    }
    proof {
        assert(writer.data@ =~= old(writer).data@ + bytes@);
    }
    Ok(())
}

/// Writes one byte.
pub fn write_u8(writer: &mut ByteWriter, value: u8) -> (r: Result<(), CodecError>)
    ensures
        r is Ok,
        final(writer).data@ == old(writer).data@.push(value),
{
    writer.data.push(value);
    Ok(())
}

/// Writes a 16-bit word big-endian.
pub fn write_u16(writer: &mut ByteWriter, value: u16) -> (r: Result<(), CodecError>)
    ensures
        r is Ok,
        final(writer).data@ == old(writer).data@ + u16_be_bytes(value),
{
    writer.data.push((value / 0x100) as u8);
    writer.data.push((value % 0x100) as u8);
    proof {
        assert(final(writer).data@ =~= old(writer).data@ + u16_be_bytes(value));
    }
    Ok(())
}

/// Writes a 32-bit word big-endian.
pub fn write_u32(writer: &mut ByteWriter, value: u32) -> (r: Result<(), CodecError>)
    ensures
        r is Ok,
        final(writer).data@ == old(writer).data@ + u32_be_bytes(value),
{
    writer.data.push((value / 0x100_0000) as u8);
    writer.data.push(((value / 0x1_0000) % 0x100) as u8);
    writer.data.push(((value / 0x100) % 0x100) as u8);
    writer.data.push((value % 0x100) as u8);
    proof {
        assert(final(writer).data@ =~= old(writer).data@ + u32_be_bytes(value));
    }
    Ok(())
}

/// Writes a 64-bit word big-endian.
pub fn write_u64(writer: &mut ByteWriter, value: u64) -> (r: Result<(), CodecError>)
    ensures
        r is Ok,
        final(writer).data@ == old(writer).data@ + u64_be_bytes(value),
{
    writer.data.push((value / 0x100_0000_0000_0000) as u8);
    writer.data.push(((value / 0x1_0000_0000_0000) % 0x100) as u8);
    writer.data.push(((value / 0x100_0000_0000) % 0x100) as u8);
    writer.data.push(((value / 0x1_0000_0000) % 0x100) as u8);
    writer.data.push(((value / 0x100_0000) % 0x100) as u8);
    writer.data.push(((value / 0x1_0000) % 0x100) as u8);
    writer.data.push(((value / 0x100) % 0x100) as u8);
    writer.data.push((value % 0x100) as u8);
    proof {
        assert(final(writer).data@ =~= old(writer).data@ + u64_be_bytes(value));
    }
    Ok(())
}

/// The flat big-endian encoding of a run of 16-bit words.
pub open spec fn u16_seq_be_bytes(s: Seq<u16>) -> Seq<u8>
    decreases s.len(),
{
    if s.len() == 0 {
        Seq::empty()
    } else {
        u16_be_bytes(s[0]) + u16_seq_be_bytes(s.drop_first())
    }
}

proof fn lemma_u16_seq_be_bytes_step(s: Seq<u16>, n: int)
    requires
        0 <= n < s.len(),
    ensures
        u16_seq_be_bytes(s.take(n + 1)) == u16_seq_be_bytes(s.take(n)) + u16_be_bytes(s[n]),
    decreases n,
{
    let a = s.take(n + 1);
    assert(a.len() == n + 1);
    assert(u16_seq_be_bytes(a) == u16_be_bytes(a[0]) + u16_seq_be_bytes(a.drop_first()));
    if n == 0 {
        assert(a.drop_first() =~= Seq::empty());
        assert(u16_seq_be_bytes(s.take(0)).len() == 0);
        assert(u16_seq_be_bytes(a.drop_first()).len() == 0);
        assert(u16_seq_be_bytes(s.take(n + 1)) =~= u16_seq_be_bytes(s.take(n)) + u16_be_bytes(
            s[n],
        ));
    } else {
        assert(a.drop_first() =~= s.drop_first().take(n));
        assert(s.take(n).drop_first() =~= s.drop_first().take(n - 1));
        lemma_u16_seq_be_bytes_step(s.drop_first(), n - 1);
        assert(s.drop_first()[n - 1] == s[n]);
        assert(u16_seq_be_bytes(a) =~= u16_seq_be_bytes(s.take(n)) + u16_be_bytes(s[n]));
    }
}

/// Writes each word of the slice big-endian, front to back.
pub fn write_u16_array(writer: &mut ByteWriter, value: &[u16]) -> (r: Result<(), CodecError>)
    ensures
        r is Ok,
        final(writer).data@ == old(writer).data@ + u16_seq_be_bytes(value@),
{
    let mut i: usize = 0;
    proof {
        assert(value@.take(0) =~= Seq::empty());
        assert(writer.data@ =~= old(writer).data@ + u16_seq_be_bytes(value@.take(0)));
    }
    while i < value.len()
        invariant
            i <= value@.len(),
            writer.data@ == old(writer).data@ + u16_seq_be_bytes(value@.take(i as int)),
        decreases value@.len() - i,
    {
        let v = value[i];
        match write_u16(writer, v) {
            Ok(_) => {},
            Err(e) => {
                proof {
                    assert(false);
                }
                return Err(e);
            },
        }
        proof {
            lemma_u16_seq_be_bytes_step(value@, i as int);
        }
        i = i + 1;
    }
    proof {
        assert(value@.take(value@.len() as int) =~= value@);
    }
    Ok(())
}

/// Writes an exact real value as a signed 15.16 word, clamped into the
/// word's range.
pub fn write_s15f16(writer: &mut ByteWriter, value: Fixed) -> (r: Result<(), CodecError>)
    ensures
        r is Ok,
        final(writer).data@ == old(writer).data@ + s15f16_be_bytes(sat_s15(value.raw as int)),
{
    let v: S15F16 = value.to_s15f16();
    #[verifier::truncate]
    let u: u32 = v as u32;
    proof {
        assert((v < 0) ==> ((v as u32) as i64 == (v as i64) + 0x1_0000_0000i64))
            by (bit_vector);
        assert((v >= 0) ==> ((v as u32) as i64 == (v as i64))) by (bit_vector);
    }
    write_u32(writer, u)
}

/// Writes an XYZ triple as three signed 15.16 words.
pub fn write_xyz(writer: &mut ByteWriter, value: XyzNumber) -> (r: Result<(), CodecError>)
    ensures
        r is Ok,
        final(writer).data@ == old(writer).data@ + s15f16_be_bytes(sat_s15(value.x.raw as int))
            + s15f16_be_bytes(sat_s15(value.y.raw as int)) + s15f16_be_bytes(
            sat_s15(value.z.raw as int),
        ),
{
    let _r1 = write_s15f16(writer, value.x);
    let _r2 = write_s15f16(writer, value.y);
    let _r3 = write_s15f16(writer, value.z);
    Ok(())
}

/// Law: the primitive layer is lossless — a 32-bit word written big-endian
/// and read back is the same word.
pub proof fn lemma_u32_codec_round_trip(v: u32)
    ensures
        be_u32(
            u32_be_bytes(v)[0],
            u32_be_bytes(v)[1],
            u32_be_bytes(v)[2],
            u32_be_bytes(v)[3],
        ) == v,
{
    assert(v / 0x100_0000 < 0x100);
}

/// Law: the primitive layer is lossless for 16-bit words.
pub proof fn lemma_u16_codec_round_trip(v: u16)
    ensures
        be_u16(u16_be_bytes(v)[0], u16_be_bytes(v)[1]) == v,
{
}

/// Law: a signed 15.16 word written through its two's-complement form and
/// read back signed is the same value.
pub proof fn lemma_s15f16_codec_round_trip(v: int)
    requires
        -0x8000_0000 <= v <= 0x7FFF_FFFF,
    ensures
        be_i32(
            s15f16_be_bytes(v)[0],
            s15f16_be_bytes(v)[1],
            s15f16_be_bytes(v)[2],
            s15f16_be_bytes(v)[3],
        ) == v,
{
    let u = i32_as_u32(v) as u32;
    lemma_u32_codec_round_trip(u);
}

} // verus!

