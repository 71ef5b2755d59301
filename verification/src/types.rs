//! The tag-type codecs: one reader/writer pair for each supported wire
//! encoding of a tag body.
//!
//! Every reader takes the declared payload size of the tag and returns the
//! element count beside the decoded value; every writer emits the wire
//! bytes of one decoded value.  Wire layouts are big-endian throughout.

use vstd::prelude::*;
use crate::error::CodecError;
use crate::fixed::Fixed;
use crate::fixed::sat_s15;
use crate::fixed::sat_u16f16;
use crate::signature::Signature;
use crate::stream::ByteReader;
use crate::stream::ByteWriter;
use crate::stream::XyzNumber;
use crate::stream::be_u16;
use crate::stream::be_u32;
use crate::stream::be_i32;
use crate::stream::bytes_at;
use crate::stream::u16_be_bytes;
use crate::stream::u32_be_bytes;
use crate::stream::s15f16_be_bytes;
use crate::stream::read_u16;
use crate::stream::read_u32;
use crate::stream::read_s15f16;
use crate::stream::read_xyz;
use crate::stream::read_bytes;
use crate::stream::write_u16;
use crate::stream::write_u32;
use crate::stream::write_s15f16;
use crate::stream::write_xyz;
use crate::stream::write_bytes;

verus! {

/// A chromaticity coordinate: x, y and the luminance Y.
#[derive(Copy, Clone, Debug, Eq, PartialEq, Structural)]
pub struct XyYNumber {
    pub x: Fixed,
    pub y: Fixed,
    /// The luminance component, written `Y` in colorimetry.
    pub big_y: Fixed,
}

/// The chromaticity coordinates of the three primaries.
#[derive(Copy, Clone, Debug, Eq, PartialEq, Structural)]
pub struct XyYTriple {
    pub red: XyYNumber,
    pub green: XyYNumber,
    pub blue: XyYNumber,
}

/// The decoded form of a data tag: a flag word and the raw payload, with
/// the payload length kept beside it.
#[derive(Clone, Debug, Eq, PartialEq)]
pub struct ICCData {
    /// Byte count of `data`; a writer refuses a value whose `length`
    /// disagrees with the payload it holds.
    pub length: u32,
    pub flag: u32,
    pub data: Vec<u8>,
}

/// Whether every byte of the run is plain ASCII.
pub open spec fn ascii_ok(s: Seq<u8>) -> bool {
    forall|i: int| 0 <= i < s.len() ==> s[i] <= 127
}

/// Whether every byte of the slice is plain ASCII.
fn all_ascii(v: &[u8]) -> (b: bool)
    ensures
        b == ascii_ok(v@),
{
    let mut i: usize = 0;
    while i < v.len()
        invariant
            i <= v@.len(),
            forall|j: int| 0 <= j < i ==> v@[j] <= 127,
        decreases v@.len() - i,
    {
        if v[i] > 127 {
            return false;
        }
        i = i + 1;
    }
    true
}

/// Reads an XYZ tag body: three signed 15.16 words, twelve bytes.
pub fn xyz_read(reader: &mut ByteReader, _only_reads_one: usize) -> (r: Result<
    (usize, XyzNumber),
    CodecError,
>)
    ensures
        final(reader).data@ == old(reader).data@,
        match r {
            Ok((n, v)) => {
                &&& n == 1
                &&& old(reader).remaining_spec() >= 12
                &&& final(reader).pos == old(reader).pos + 12
                &&& xyz_decoded(old(reader).data@, old(reader).pos as int, v)
            },
            Err(e) => {
                &&& e == CodecError::UnexpectedEof
                &&& old(reader).remaining_spec() < 12
                &&& final(reader).pos == old(reader).pos
            },
        },
{
    match read_xyz(reader) {
        Ok(v) => Ok((1, v)),
        Err(e) => Err(e),
    }
}

/// Writes an XYZ tag body: three signed 15.16 words, each clamped into the
/// word's range.
pub fn xyz_write(writer: &mut ByteWriter, items: &XyzNumber, _only_writes_one: usize) -> (r:
    Result<(), CodecError>)
    ensures
        r is Ok,
        final(writer).data@ == old(writer).data@ + s15f16_be_bytes(sat_s15(items.x.raw as int))
            + s15f16_be_bytes(sat_s15(items.y.raw as int)) + s15f16_be_bytes(
            sat_s15(items.z.raw as int),
        ),
{
    write_xyz(writer, *items)
}

/// Writes the x and y coordinates of one chromaticity as two signed 15.16
/// words; the luminance is not part of the wire form.
pub fn save_one_chromaticity(item: &XyYNumber, writer: &mut ByteWriter) -> (r: Result<
    (),
    CodecError,
>)
    ensures
        r is Ok,
        final(writer).data@ == old(writer).data@ + s15f16_be_bytes(sat_s15(item.x.raw as int))
            + s15f16_be_bytes(sat_s15(item.y.raw as int)),
{
    let _r1 = write_s15f16(writer, item.x);
    let _r2 = write_s15f16(writer, item.y);
    Ok(())
}

/// Reads a chromaticity tag body: a channel count that must be 3, a
/// reserved word, then an (x, y) pair of signed 15.16 words per primary.
/// Each decoded luminance is forced to one.
pub fn chromaticity_read(reader: &mut ByteReader, _only_reads_one: usize) -> (r: Result<
    (usize, XyYTriple),
    CodecError,
>)
    ensures
        final(reader).data@ == old(reader).data@,
        match r {
            Ok((n, v)) => {
                &&& n == 1
                &&& old(reader).remaining_spec() >= 28
                &&& be_u16(
                    old(reader).data@[old(reader).pos as int],
                    old(reader).data@[old(reader).pos + 1],
                ) == 3
                &&& final(reader).pos == old(reader).pos + 28
                &&& chromaticity_decoded(old(reader).data@, old(reader).pos as int, v)
            },
            Err(e) => {
                &&& (e == CodecError::InvalidData || e == CodecError::UnexpectedEof)
                &&& (e == CodecError::InvalidData <==> old(reader).remaining_spec() >= 2
                    && be_u16(
                    old(reader).data@[old(reader).pos as int],
                    old(reader).data@[old(reader).pos + 1],
                ) != 3)
                &&& (e == CodecError::UnexpectedEof <==> old(reader).remaining_spec() < 2 || (
                be_u16(
                    old(reader).data@[old(reader).pos as int],
                    old(reader).data@[old(reader).pos + 1],
                ) == 3 && old(reader).remaining_spec() < 28))
                &&& final(reader).pos == old(reader).pos
            },
        },
{
    let start = reader.pos;
    let num_channels = match read_u16(reader) {
        Ok(v) => v,
        Err(e) => {
            return Err(e);
        },
    };
    if num_channels != 3 {
        reader.pos = start;
        return Err(CodecError::InvalidData);
    }
    if reader.remaining() < 26 {
        reader.pos = start;
        return Err(CodecError::UnexpectedEof);
    }
    let _reserved = match read_u16(reader) {
        Ok(v) => v,
        Err(e) => {
            proof {
                assert(false);
            }
            return Err(e);
        },
    };
    let one = Fixed::one();
    let red_x = match read_s15f16(reader) {
        Ok(v) => v,
        Err(e) => {
            proof {
                assert(false);
            }
            return Err(e);
        },
    };
    let red_y = match read_s15f16(reader) {
        Ok(v) => v,
        Err(e) => {
            proof {
                assert(false);
            }
            return Err(e);
        },
    };
    let green_x = match read_s15f16(reader) {
        Ok(v) => v,
        Err(e) => {
            proof {
                assert(false);
            }
            return Err(e);
        },
    };
    let green_y = match read_s15f16(reader) {
        Ok(v) => v,
        Err(e) => {
            proof {
                assert(false);
            }
            return Err(e);
        },
    };
    let blue_x = match read_s15f16(reader) {
        Ok(v) => v,
        Err(e) => {
            proof {
                assert(false);
            }
            return Err(e);
        },
    };
    let blue_y = match read_s15f16(reader) {
        Ok(v) => v,
        Err(e) => {
            proof {
                assert(false);
            }
            return Err(e);
        },
    };
    Ok(
        (
            1,
            XyYTriple {
                red: XyYNumber { x: red_x, y: red_y, big_y: one },
                green: XyYNumber { x: green_x, y: green_y, big_y: one },
                blue: XyYNumber { x: blue_x, y: blue_y, big_y: one },
            },
        ),
    )
}

/// Writes a chromaticity tag body: channel count 3, reserved word 0, then
/// the (x, y) pair of each primary.
pub fn chromaticity_write(writer: &mut ByteWriter, items: &XyYTriple, _only_writes_one: usize)
    -> (r: Result<(), CodecError>)
    ensures
        r is Ok,
        final(writer).data@ == old(writer).data@ + u16_be_bytes(3) + u16_be_bytes(0)
            + s15f16_be_bytes(sat_s15(items.red.x.raw as int)) + s15f16_be_bytes(
            sat_s15(items.red.y.raw as int),
        ) + s15f16_be_bytes(sat_s15(items.green.x.raw as int)) + s15f16_be_bytes(
            sat_s15(items.green.y.raw as int),
        ) + s15f16_be_bytes(sat_s15(items.blue.x.raw as int)) + s15f16_be_bytes(
            sat_s15(items.blue.y.raw as int),
        ),
{
    let _r1 = write_u16(writer, 3);
    let _r2 = write_u16(writer, 0);
    let _r3 = save_one_chromaticity(&items.red, writer);
    let _r4 = save_one_chromaticity(&items.green, writer);
    let _r5 = save_one_chromaticity(&items.blue, writer);
    Ok(())
}

/// Reads a signature tag body: one 4-byte identifier.
pub fn signature_read(reader: &mut ByteReader, _only_reads_one: usize) -> (r: Result<
    (usize, Signature),
    CodecError,
>)
    ensures
        final(reader).data@ == old(reader).data@,
        match r {
            Ok((n, v)) => {
                &&& n == 1
                &&& old(reader).remaining_spec() >= 4
                &&& final(reader).pos == old(reader).pos + 4
                &&& signature_decoded(old(reader).data@, old(reader).pos as int, v)
            },
            Err(e) => {
                &&& e == CodecError::UnexpectedEof
                &&& old(reader).remaining_spec() < 4
                &&& final(reader).pos == old(reader).pos
            },
        },
{
    match read_u32(reader) {
        Ok(v) => Ok((1, Signature::from_u32(v))),
        Err(e) => Err(e),
    }
}

/// Writes a signature tag body: the identifier's 4 bytes.
pub fn signature_write(writer: &mut ByteWriter, items: &Signature, _only_writes_one: usize) -> (r:
    Result<(), CodecError>)
    ensures
        r is Ok,
        final(writer).data@ == old(writer).data@ + u32_be_bytes(items.0),
{
    write_u32(writer, items.to_u32())
}

/// Reads a colorant-order tag body: a count of device colorants, at most
/// [`crate::MAX_CHANNELS`], then one index byte per colorant.  The decoded
/// buffer always holds [`crate::MAX_CHANNELS`] bytes, the unused tail
/// filled with the 0xFF sentinel.
pub fn colorant_order_read(reader: &mut ByteReader, _only_reads_one: usize) -> (r: Result<
    (usize, Vec<u8>),
    CodecError,
>)
    ensures
        final(reader).data@ == old(reader).data@,
        match r {
            Ok((n, buf)) => {
                &&& old(reader).remaining_spec() >= 4
                &&& colorant_order_decoded(old(reader).data@, old(reader).pos as int, n as int, buf@)
                &&& old(reader).remaining_spec() >= 4 + n
                &&& final(reader).pos == old(reader).pos + 4 + n
            },
            Err(e) => {
                &&& (e == CodecError::InvalidData || e == CodecError::UnexpectedEof)
                &&& (e == CodecError::InvalidData <==> old(reader).remaining_spec() >= 4
                    && be_u32(
                    old(reader).data@[old(reader).pos as int],
                    old(reader).data@[old(reader).pos + 1],
                    old(reader).data@[old(reader).pos + 2],
                    old(reader).data@[old(reader).pos + 3],
                ) > 16)
                &&& (e == CodecError::UnexpectedEof <==> old(reader).remaining_spec() < 4 || (
                be_u32(
                    old(reader).data@[old(reader).pos as int],
                    old(reader).data@[old(reader).pos + 1],
                    old(reader).data@[old(reader).pos + 2],
                    old(reader).data@[old(reader).pos + 3],
                ) <= 16 && old(reader).remaining_spec() < 4 + be_u32(
                    old(reader).data@[old(reader).pos as int],
                    old(reader).data@[old(reader).pos + 1],
                    old(reader).data@[old(reader).pos + 2],
                    old(reader).data@[old(reader).pos + 3],
                )))
                &&& final(reader).pos == old(reader).pos
            },
        },
{
    let start = reader.pos;
    let count32 = match read_u32(reader) {
        Ok(v) => v,
        Err(e) => {
            return Err(e);
        },
    };
    if count32 > 16 {
        reader.pos = start;
        return Err(CodecError::InvalidData);
    }
    let count = count32 as usize;
    let indices = match read_bytes(reader, count) {
        Ok(v) => v,
        Err(e) => {
            reader.pos = start;
            return Err(e);
        },
    };
    let mut buf = indices;
    while buf.len() < 16
        invariant
            buf@.len() >= count || buf@.len() == count,
            buf@.len() <= 16,
            count <= 16,
            forall|i: int| 0 <= i < count ==> buf@[i] == bytes_at(
                old(reader).data@,
                old(reader).pos + 4,
                count as int,
            )[i],
            forall|i: int| count <= i < buf@.len() ==> buf@[i] == 0xFF,
        decreases 16 - buf@.len(),
    {
        buf.push(0xFF);
    }
    Ok((count, buf))
}

} // verus!

verus! {

/// The flat wire encoding of a run of values as signed 15.16 words.
pub open spec fn s15_seq_be_bytes(s: Seq<Fixed>) -> Seq<u8>
    decreases s.len(),
{
    if s.len() == 0 {
        Seq::empty()
    } else {
        s15f16_be_bytes(sat_s15(s[0].raw as int)) + s15_seq_be_bytes(s.drop_first())
    }
}

proof fn lemma_s15_seq_be_bytes_step(s: Seq<Fixed>, n: int)
    requires
        0 <= n < s.len(),
    ensures
        s15_seq_be_bytes(s.take(n + 1)) == s15_seq_be_bytes(s.take(n)) + s15f16_be_bytes(
            sat_s15(s[n].raw as int),
        ),
    decreases n,
{
    let a = s.take(n + 1);
    assert(a.len() == n + 1);
    assert(s15_seq_be_bytes(a) == s15f16_be_bytes(sat_s15(a[0].raw as int)) + s15_seq_be_bytes(
        a.drop_first(),
    ));
    if n == 0 {
        assert(a.drop_first() =~= Seq::empty());
        assert(s15_seq_be_bytes(s.take(0)).len() == 0);
        assert(s15_seq_be_bytes(a.drop_first()).len() == 0);
        assert(s15_seq_be_bytes(s.take(n + 1)) =~= s15_seq_be_bytes(s.take(n)) + s15f16_be_bytes(
            sat_s15(s[n].raw as int),
        ));
    } else {
        assert(a.drop_first() =~= s.drop_first().take(n));
        assert(s.take(n).drop_first() =~= s.drop_first().take(n - 1));
        lemma_s15_seq_be_bytes_step(s.drop_first(), n - 1);
        assert(s.drop_first()[n - 1] == s[n]);
        assert(s15_seq_be_bytes(a) =~= s15_seq_be_bytes(s.take(n)) + s15f16_be_bytes(
            sat_s15(s[n].raw as int),
        ));
    }
}

/// The flat wire encoding of a run of values as unsigned 16.16 words.
pub open spec fn u16f16_seq_be_bytes(s: Seq<Fixed>) -> Seq<u8>
    decreases s.len(),
{
    if s.len() == 0 {
        Seq::empty()
    } else {
        u32_be_bytes(sat_u16f16(s[0].raw as int) as u32) + u16f16_seq_be_bytes(s.drop_first())
    }
}

proof fn lemma_u16f16_seq_be_bytes_step(s: Seq<Fixed>, n: int)
    requires
        0 <= n < s.len(),
    ensures
        u16f16_seq_be_bytes(s.take(n + 1)) == u16f16_seq_be_bytes(s.take(n)) + u32_be_bytes(
            sat_u16f16(s[n].raw as int) as u32,
        ),
    decreases n,
{
    let a = s.take(n + 1);
    assert(a.len() == n + 1);
    assert(u16f16_seq_be_bytes(a) == u32_be_bytes(sat_u16f16(a[0].raw as int) as u32)
        + u16f16_seq_be_bytes(a.drop_first()));
    if n == 0 {
        assert(a.drop_first() =~= Seq::empty());
        assert(u16f16_seq_be_bytes(s.take(0)).len() == 0);
        assert(u16f16_seq_be_bytes(a.drop_first()).len() == 0);
        assert(u16f16_seq_be_bytes(s.take(n + 1)) =~= u16f16_seq_be_bytes(s.take(n))
            + u32_be_bytes(sat_u16f16(s[n].raw as int) as u32));
    } else {
        assert(a.drop_first() =~= s.drop_first().take(n));
        assert(s.take(n).drop_first() =~= s.drop_first().take(n - 1));
        lemma_u16f16_seq_be_bytes_step(s.drop_first(), n - 1);
        assert(s.drop_first()[n - 1] == s[n]);
        assert(u16f16_seq_be_bytes(a) =~= u16f16_seq_be_bytes(s.take(n)) + u32_be_bytes(
            sat_u16f16(s[n].raw as int) as u32,
        ));
    }
}

/// Reads a signed 15.16 array tag body.  The element count is not
/// self-describing: it is the declared payload size divided by the word
/// width, the remainder ignored.
pub fn s15_f16_read(reader: &mut ByteReader, length_in_bytes: usize) -> (r: Result<
    (usize, Vec<Fixed>),
    CodecError,
>)
    ensures
        final(reader).data@ == old(reader).data@,
        match r {
            Ok((n, vs)) => {
                &&& n == length_in_bytes / 4
                &&& old(reader).remaining_spec() >= 4 * n
                &&& final(reader).pos == old(reader).pos + 4 * n
                &&& s15_array_decoded(old(reader).data@, old(reader).pos as int, n as int, vs@)
            },
            Err(e) => {
                &&& e == CodecError::UnexpectedEof
                &&& old(reader).remaining_spec() < 4 * (length_in_bytes / 4)
                &&& final(reader).pos == old(reader).pos
            },
        },
{
    let n = length_in_bytes / 4;
    if reader.remaining() / 4 < n {
        return Err(CodecError::UnexpectedEof);
    }
    let mut out: Vec<Fixed> = Vec::new();
    let mut i: usize = 0;
    while i < n
        invariant
            i <= n,
            reader.data@ == old(reader).data@,
            reader.pos == old(reader).pos + 4 * i,
            old(reader).remaining_spec() >= 4 * n,
            out@.len() == i,
            forall|j: int|
                0 <= j < i ==> #[trigger] out@[j].raw as int == be_i32(
                    old(reader).data@[old(reader).pos + 4 * j],
                    old(reader).data@[old(reader).pos + 4 * j + 1],
                    old(reader).data@[old(reader).pos + 4 * j + 2],
                    old(reader).data@[old(reader).pos + 4 * j + 3],
                ),
        decreases n - i,
    {
        match read_s15f16(reader) {
            Ok(v) => {
                out.push(v);
            },
            Err(e) => {
                proof {
                    assert(false);
                }
                return Err(e);
            },
        }
        i = i + 1;
    }
    Ok((n, out))
}

/// Writes the first `count` values of the slice as signed 15.16 words,
/// each clamped into the word's range.
pub fn s15_f16_write(writer: &mut ByteWriter, items: &[Fixed], count: usize) -> (r: Result<
    (),
    CodecError,
>)
    requires
        count <= items@.len(),
    ensures
        r is Ok,
        final(writer).data@ == old(writer).data@ + s15_seq_be_bytes(items@.take(count as int)),
{
    let mut i: usize = 0;
    proof {
        assert(items@.take(0) =~= Seq::<Fixed>::empty());
        assert(writer.data@ =~= old(writer).data@ + s15_seq_be_bytes(items@.take(0)));
    }
    while i < count
        invariant
            i <= count,
            count <= items@.len(),
            writer.data@ == old(writer).data@ + s15_seq_be_bytes(items@.take(i as int)),
        decreases count - i,
    {
        let v = items[i];
        let _r1 = write_s15f16(writer, v);
        proof {
            lemma_s15_seq_be_bytes_step(items@, i as int);
        }
        i = i + 1;
    }
    Ok(())
}

/// Reads an unsigned 16.16 array tag body; the element count is the
/// declared payload size divided by the word width.
pub fn u16_f16_read(reader: &mut ByteReader, length_in_bytes: usize) -> (r: Result<
    (usize, Vec<Fixed>),
    CodecError,
>)
    ensures
        final(reader).data@ == old(reader).data@,
        match r {
            Ok((n, vs)) => {
                &&& n == length_in_bytes / 4
                &&& old(reader).remaining_spec() >= 4 * n
                &&& final(reader).pos == old(reader).pos + 4 * n
                &&& u16f16_array_decoded(old(reader).data@, old(reader).pos as int, n as int, vs@)
            },
            Err(e) => {
                &&& e == CodecError::UnexpectedEof
                &&& old(reader).remaining_spec() < 4 * (length_in_bytes / 4)
                &&& final(reader).pos == old(reader).pos
            },
        },
{
    let n = length_in_bytes / 4;
    if reader.remaining() / 4 < n {
        return Err(CodecError::UnexpectedEof);
    }
    let mut out: Vec<Fixed> = Vec::new();
    let mut i: usize = 0;
    while i < n
        invariant
            i <= n,
            reader.data@ == old(reader).data@,
            reader.pos == old(reader).pos + 4 * i,
            old(reader).remaining_spec() >= 4 * n,
            out@.len() == i,
            forall|j: int|
                0 <= j < i ==> #[trigger] out@[j].raw as int == be_u32(
                    old(reader).data@[old(reader).pos + 4 * j],
                    old(reader).data@[old(reader).pos + 4 * j + 1],
                    old(reader).data@[old(reader).pos + 4 * j + 2],
                    old(reader).data@[old(reader).pos + 4 * j + 3],
                ),
        decreases n - i,
    {
        match read_u32(reader) {
            Ok(v) => {
                out.push(Fixed::from_u16f16(v));
            },
            Err(e) => {
                proof {
                    assert(false);
                }
                return Err(e);
            },
        }
        i = i + 1;
    }
    Ok((n, out))
}

/// Writes the first `count` values of the slice as unsigned 16.16 words,
/// each clamped into the word's range.
pub fn u16_f16_write(writer: &mut ByteWriter, items: &[Fixed], count: usize) -> (r: Result<
    (),
    CodecError,
>)
    requires
        count <= items@.len(),
    ensures
        r is Ok,
        final(writer).data@ == old(writer).data@ + u16f16_seq_be_bytes(
            items@.take(count as int),
        ),
{
    let mut i: usize = 0;
    proof {
        assert(items@.take(0) =~= Seq::<Fixed>::empty());
        assert(writer.data@ =~= old(writer).data@ + u16f16_seq_be_bytes(items@.take(0)));
    }
    while i < count
        invariant
            i <= count,
            count <= items@.len(),
            writer.data@ == old(writer).data@ + u16f16_seq_be_bytes(items@.take(i as int)),
        decreases count - i,
    {
        let v = items[i];
        let _r1 = write_u32(writer, v.to_u16f16());
        proof {
            lemma_u16f16_seq_be_bytes_step(items@, i as int);
        }
        i = i + 1;
    }
    Ok(())
}

} // verus!

verus! {

/// Reads a text tag body: up to the declared payload size of raw bytes,
/// each of which must be plain ASCII; the decoded buffer carries one
/// terminating zero after them.
pub fn text_read(reader: &mut ByteReader, tag_size: usize) -> (r: Result<
    (usize, Vec<u8>),
    CodecError,
>)
    ensures
        final(reader).data@ == old(reader).data@,
        match r {
            Ok((n, v)) => {
                &&& n == 1
                &&& old(reader).remaining_spec() >= tag_size
                &&& text_decoded(old(reader).data@, old(reader).pos as int, tag_size as int, v@)
                &&& final(reader).pos == old(reader).pos + tag_size
            },
            Err(e) => {
                &&& (e == CodecError::InvalidData || e == CodecError::UnexpectedEof)
                &&& (e == CodecError::UnexpectedEof <==> old(reader).remaining_spec() < tag_size)
                &&& (e == CodecError::InvalidData <==> old(reader).remaining_spec() >= tag_size
                    && !ascii_ok(
                    bytes_at(old(reader).data@, old(reader).pos as int, tag_size as int),
                ))
                &&& final(reader).pos == old(reader).pos
            },
        },
{
    let start = reader.pos;
    let bs = match read_bytes(reader, tag_size) {
        Ok(v) => v,
        Err(e) => {
            return Err(e);
        },
    };
    if !all_ascii(bs.as_slice()) {
        reader.pos = start;
        return Err(CodecError::InvalidData);
    }
    let mut result = bs;
    result.push(0);
    Ok((1, result))
}

/// Writes a text tag body: the bytes as they stand, each of which must be
/// plain ASCII, with a terminating zero appended when the last byte is not
/// already zero.
pub fn text_write(writer: &mut ByteWriter, items: &[u8], _only_writes_one: usize) -> (r: Result<
    (),
    CodecError,
>)
    ensures
        match r {
            Ok(_) => {
                &&& ascii_ok(items@)
                &&& final(writer).data@ == old(writer).data@ + items@ + (
                if items@.len() == 0 || items@.last() != 0 {
                    seq![0u8]
                } else {
                    Seq::<u8>::empty()
                })
            },
            Err(e) => {
                &&& e == CodecError::InvalidData
                &&& !ascii_ok(items@)
                &&& final(writer).data@ == old(writer).data@
            },
        },
{
    if !all_ascii(items) {
        return Err(CodecError::InvalidData);
    }
    let _r1 = write_bytes(writer, items);
    if items.len() == 0 || items[items.len() - 1] != 0 {
        writer.data.push(0);
        proof {
            assert(final(writer).data@ =~= old(writer).data@ + items@ + seq![0u8]);
        }
    } else {
        proof {
            assert(final(writer).data@ =~= old(writer).data@ + items@ + Seq::<u8>::empty());
        }
    }
    Ok(())
}

/// Reads a data tag body: a flag word, then the rest of the declared
/// payload as raw bytes.  The decoded length is computed from the declared
/// size, never trusted from the stream.
pub fn data_read(reader: &mut ByteReader, tag_size: usize) -> (r: Result<
    (usize, ICCData),
    CodecError,
>)
    requires
        tag_size <= 0xFFFF_FFFF,
    ensures
        final(reader).data@ == old(reader).data@,
        match r {
            Ok((n, v)) => {
                &&& n == 1
                &&& tag_size >= 4
                &&& old(reader).remaining_spec() >= tag_size
                &&& data_decoded(old(reader).data@, old(reader).pos as int, tag_size as int, v)
                &&& final(reader).pos == old(reader).pos + tag_size
            },
            Err(e) => {
                &&& (e == CodecError::InvalidData || e == CodecError::UnexpectedEof)
                &&& (e == CodecError::InvalidData <==> tag_size < 4)
                &&& (e == CodecError::UnexpectedEof <==> tag_size >= 4 && old(reader).remaining_spec() < tag_size)
                &&& final(reader).pos == old(reader).pos
            },
        },
{
    if tag_size < 4 {
        return Err(CodecError::InvalidData);
    }
    if reader.remaining() < tag_size {
        return Err(CodecError::UnexpectedEof);
    }
    let flag = match read_u32(reader) {
        Ok(v) => v,
        Err(e) => {
            proof {
                assert(false);
            }
            return Err(e);
        },
    };
    let payload = match read_bytes(reader, tag_size - 4) {
        Ok(v) => v,
        Err(e) => {
            proof {
                assert(false);
            }
            return Err(e);
        },
    };
    Ok((1, ICCData { length: (tag_size - 4) as u32, flag, data: payload }))
}

/// Writes a data tag body: the flag word, then the payload as it stands.
/// A value whose stored length disagrees with its payload is refused.
pub fn data_write(writer: &mut ByteWriter, items: &ICCData, _only_writes_one: usize) -> (r:
    Result<(), CodecError>)
    ensures
        match r {
            Ok(_) => {
                &&& items.data@.len() == items.length
                &&& final(writer).data@ == old(writer).data@ + u32_be_bytes(items.flag)
                    + items.data@
            },
            Err(e) => {
                &&& e == CodecError::InvalidData
                &&& items.data@.len() != items.length
                &&& final(writer).data@ == old(writer).data@
            },
        },
{
    if items.data.len() != items.length as usize {
        return Err(CodecError::InvalidData);
    }
    let _r1 = write_u32(writer, items.flag);
    let _r2 = write_bytes(writer, items.data.as_slice());
    Ok(())
}

} // verus!

verus! {

/// How many bytes of the optional Unicode and ScriptCode trailer of a
/// legacy text-description body are taken, given the bytes `d`, the
/// stream position `p` just after the mandatory ASCII section, the count
/// `rem_tag` of payload bytes the declared size leaves after that section,
/// and the count `remaining` of stream bytes left there.  A section that
/// is absent or truncated is left alone.
pub open spec fn text_desc_trailer_len(d: Seq<u8>, p: int, rem_tag: int, remaining: int) -> int {
    if rem_tag < 8 || remaining < 8 {
        0
    } else {
        let ucount = be_u32(d[p + 4], d[p + 5], d[p + 6], d[p + 7]);
        if rem_tag - 8 < 2 * ucount || remaining - 8 < 2 * ucount {
            8
        } else if rem_tag - 8 - 2 * ucount >= 70 && remaining - 8 - 2 * ucount >= 70 {
            8 + 2 * ucount + 70
        } else {
            8 + 2 * ucount
        }
    }
}

/// Reads a legacy text-description tag body.  The mandatory section is a
/// count of ASCII bytes and the bytes themselves, each of which must be
/// plain ASCII; the decoded buffer is those bytes with one terminating
/// zero.  The optional Unicode and ScriptCode sections that may follow
/// are parsed and discarded, and a trailer that is absent, truncated or
/// unreadable never fails the read: only the mandatory section is held to
/// the stream.
pub fn text_description_read(reader: &mut ByteReader, tag_size: usize) -> (r: Result<
    (usize, Vec<u8>),
    CodecError,
>)
    ensures
        final(reader).data@ == old(reader).data@,
        ({
            let d = old(reader).data@;
            let pos = old(reader).pos as int;
            let rm = old(reader).remaining_spec();
            let ac = td_ascii_count(d, pos);
            match r {
                Ok((n, v)) => {
                    &&& n == 1
                    &&& tag_size >= 4
                    &&& rm >= 4
                    &&& ac <= tag_size - 4
                    &&& rm >= 4 + ac
                    &&& ascii_ok(bytes_at(d, pos + 4, ac))
                    &&& text_description_decoded(d, pos, v@)
                    &&& final(reader).pos == pos + 4 + ac + text_desc_trailer_len(
                        d,
                        pos + 4 + ac,
                        tag_size - 4 - ac,
                        rm - 4 - ac,
                    )
                },
                Err(e) => {
                    &&& (e == CodecError::InvalidData || e == CodecError::UnexpectedEof)
                    &&& (e == CodecError::InvalidData <==> tag_size < 4 || (rm >= 4 && ac
                        > tag_size - 4) || (ac <= tag_size - 4 && rm >= 4 + ac && !ascii_ok(
                        bytes_at(d, pos + 4, ac),
                    )))
                    &&& (e == CodecError::UnexpectedEof <==> tag_size >= 4 && (rm < 4 || (ac
                        <= tag_size - 4 && rm < 4 + ac)))
                    &&& final(reader).pos == old(reader).pos
                },
            }
        }),
{
    if tag_size < 4 {
        return Err(CodecError::InvalidData);
    }
    let start = reader.pos;
    let ascii_count32 = match read_u32(reader) {
        Ok(v) => v,
        Err(e) => {
            return Err(e);
        },
    };
    let ascii_count = ascii_count32 as usize;
    if ascii_count > tag_size - 4 {
        reader.pos = start;
        return Err(CodecError::InvalidData);
    }
    let text = match read_bytes(reader, ascii_count) {
        Ok(v) => v,
        Err(e) => {
            reader.pos = start;
            return Err(e);
        },
    };
    if !all_ascii(text.as_slice()) {
        reader.pos = start;
        return Err(CodecError::InvalidData);
    }
    let mut result = text;
    result.push(0);

    // The rest of the declared payload, and whatever the stream still
    // holds of it, is trailer: parse and discard what is whole.
    let rem_tag = tag_size - 4 - ascii_count;
    if rem_tag >= 8 && reader.remaining() >= 8 {
        let _unicode_code = match read_u32(reader) {
            Ok(v) => v,
            Err(e) => {
                proof {
                    assert(false);
                }
                return Err(e);
            },
        };
        let ucount32 = match read_u32(reader) {
            Ok(v) => v,
            Err(e) => {
                proof {
                    assert(false);
                }
                return Err(e);
            },
        };
        let ucount = ucount32 as usize;
        if (rem_tag - 8) / 2 >= ucount && reader.remaining() / 2 >= ucount {
            let _unicode = match read_bytes(reader, 2 * ucount) {
                Ok(v) => v,
                Err(e) => {
                    proof {
                        assert(false);
                    }
                    return Err(e);
                },
            };
            let rem2 = rem_tag - 8 - 2 * ucount;
            if rem2 >= 70 && reader.remaining() >= 70 {
                let _scriptcode = match read_bytes(reader, 70) {
                    Ok(v) => v,
                    Err(e) => {
                        proof {
                            assert(false);
                        }
                        return Err(e);
                    },
                };
            }
        }
    }
    Ok((1, result))
}

} // verus!

verus! {

/// How many device colorants a decoded colorant-order buffer holds: the
/// index of its first 0xFF sentinel, or its whole length when no sentinel
/// stands in it.
pub open spec fn sentinel_count(s: Seq<u8>) -> int
    decreases s.len(),
{
    if s.len() == 0 {
        0
    } else if s[0] == 0xFF {
        0
    } else {
        1 + sentinel_count(s.drop_first())
    }
}

proof fn lemma_sentinel_split(s: Seq<u8>, i: int)
    requires
        0 <= i <= s.len(),
        forall|j: int| 0 <= j < i ==> s[j] != 0xFF,
    ensures
        sentinel_count(s) == i + sentinel_count(s.skip(i)),
    decreases i,
{
    if i == 0 {
        assert(s.skip(0) =~= s);
    } else {
        assert(s.len() > 0);
        assert(s[0] != 0xFF);
        assert(sentinel_count(s) == 1 + sentinel_count(s.drop_first()));
        assert(forall|j: int|
            0 <= j < i - 1 ==> #[trigger] s.drop_first()[j] == s[j + 1] && s[j + 1] != 0xFF);
        lemma_sentinel_split(s.drop_first(), i - 1);
        assert(s.drop_first().skip(i - 1) =~= s.skip(i));
    }
}

proof fn lemma_sentinel_count_le_len(s: Seq<u8>)
    ensures
        0 <= sentinel_count(s) <= s.len(),
    decreases s.len(),
{
    if s.len() != 0 && s[0] != 0xFF {
        lemma_sentinel_count_le_len(s.drop_first());
    }
}

/// Finds the count of device colorants: the bytes before the first 0xFF
/// sentinel.
fn scan_sentinel(items: &[u8]) -> (c: usize)
    ensures
        c == sentinel_count(items@),
{
    let mut i: usize = 0;
    while i < items.len()
        invariant
            i <= items@.len(),
            forall|j: int| 0 <= j < i ==> items@[j] != 0xFF,
        decreases items@.len() - i,
    {
        if items[i] == 0xFF {
            proof {
                lemma_sentinel_split(items@, i as int);
                assert(items@.skip(i as int)[0] == 0xFF);
            }
            return i;
        }
        i = i + 1;
    }
    proof {
        lemma_sentinel_split(items@, items@.len() as int);
        assert(items@.skip(items@.len() as int).len() == 0);
    }
    items.len()
}

/// Writes a colorant-order tag body: the count of device colorants, found
/// by scanning the buffer for its first 0xFF sentinel rather than trusted
/// from a stored length, then one index byte per colorant.  A buffer that
/// holds more than [`crate::MAX_CHANNELS`] colorants is refused.
pub fn colorant_order_write(writer: &mut ByteWriter, items: &[u8], _only_writes_one: usize) -> (r:
    Result<(), CodecError>)
    ensures
        match r {
            Ok(_) => {
                &&& sentinel_count(items@) <= 16
                &&& final(writer).data@ == old(writer).data@ + u32_be_bytes(
                    sentinel_count(items@) as u32,
                ) + items@.take(sentinel_count(items@))
            },
            Err(e) => {
                &&& e == CodecError::InvalidData
                &&& sentinel_count(items@) > 16
                &&& final(writer).data@ == old(writer).data@
            },
        },
{
    let count = scan_sentinel(items);
    proof {
        lemma_sentinel_count_le_len(items@);
    }
    if count > 16 {
        return Err(CodecError::InvalidData);
    }
    let _r1 = write_u32(writer, count as u32);
    let mut i: usize = 0;
    proof {
        assert(items@.take(0) =~= Seq::<u8>::empty());
        assert(writer.data@ =~= old(writer).data@ + u32_be_bytes(count as u32) + items@.take(0));
    }
    while i < count
        invariant
            i <= count,
            count == sentinel_count(items@),
            count <= items@.len(),
            writer.data@ == old(writer).data@ + u32_be_bytes(count as u32) + items@.take(
                i as int,
            ),
        decreases count - i,
    {
        let b = items[i];
        writer.data.push(b);
        proof {
            assert(old(writer).data@ + u32_be_bytes(count as u32) + items@.take(i as int)
                + seq![b] =~= old(writer).data@ + u32_be_bytes(count as u32) + items@.take(
                i + 1,
            ));
        }
        i = i + 1;
    }
    Ok(())
}

} // verus!

verus! {

/// The count of ASCII bytes a text-description body declares.
pub open spec fn td_ascii_count(d: Seq<u8>, pos: int) -> int {
    be_u32(d[pos], d[pos + 1], d[pos + 2], d[pos + 3])
}

/// What an XYZ body beginning at `pos` of `d` decodes to.
pub open spec fn xyz_decoded(d: Seq<u8>, pos: int, v: XyzNumber) -> bool {
    &&& v.x.raw as int == be_i32(d[pos], d[pos + 1], d[pos + 2], d[pos + 3])
    &&& v.y.raw as int == be_i32(d[pos + 4], d[pos + 5], d[pos + 6], d[pos + 7])
    &&& v.z.raw as int == be_i32(d[pos + 8], d[pos + 9], d[pos + 10], d[pos + 11])
}

/// What a chromaticity body beginning at `pos` of `d` decodes to.
pub open spec fn chromaticity_decoded(d: Seq<u8>, pos: int, v: XyYTriple) -> bool {
    &&& v.red.x.raw as int == be_i32(d[pos + 4], d[pos + 5], d[pos + 6], d[pos + 7])
    &&& v.red.y.raw as int == be_i32(d[pos + 8], d[pos + 9], d[pos + 10], d[pos + 11])
    &&& v.green.x.raw as int == be_i32(d[pos + 12], d[pos + 13], d[pos + 14], d[pos + 15])
    &&& v.green.y.raw as int == be_i32(d[pos + 16], d[pos + 17], d[pos + 18], d[pos + 19])
    &&& v.blue.x.raw as int == be_i32(d[pos + 20], d[pos + 21], d[pos + 22], d[pos + 23])
    &&& v.blue.y.raw as int == be_i32(d[pos + 24], d[pos + 25], d[pos + 26], d[pos + 27])
    &&& v.red.big_y.raw == 0x1_0000
    &&& v.green.big_y.raw == 0x1_0000
    &&& v.blue.big_y.raw == 0x1_0000
}

/// What a colorant-order body beginning at `pos` of `d` decodes to.
pub open spec fn colorant_order_decoded(d: Seq<u8>, pos: int, n: int, buf: Seq<u8>) -> bool {
    &&& n == be_u32(d[pos], d[pos + 1], d[pos + 2], d[pos + 3])
    &&& n <= 16
    &&& buf.len() == 16
    &&& forall|i: int| 0 <= i < n ==> #[trigger] buf[i] == d[pos + 4 + i]
    &&& forall|i: int| n <= i < 16 ==> #[trigger] buf[i] == 0xFF
}

/// What a signed 15.16 array body beginning at `pos` of `d` decodes to.
pub open spec fn s15_array_decoded(d: Seq<u8>, pos: int, n: int, vs: Seq<Fixed>) -> bool {
    &&& vs.len() == n
    &&& forall|i: int|
        0 <= i < n ==> #[trigger] vs[i].raw as int == be_i32(
            d[pos + 4 * i],
            d[pos + 4 * i + 1],
            d[pos + 4 * i + 2],
            d[pos + 4 * i + 3],
        )
}

/// What an unsigned 16.16 array body beginning at `pos` of `d` decodes to.
pub open spec fn u16f16_array_decoded(d: Seq<u8>, pos: int, n: int, vs: Seq<Fixed>) -> bool {
    &&& vs.len() == n
    &&& forall|i: int|
        0 <= i < n ==> #[trigger] vs[i].raw as int == be_u32(
            d[pos + 4 * i],
            d[pos + 4 * i + 1],
            d[pos + 4 * i + 2],
            d[pos + 4 * i + 3],
        )
}

/// What a signature body beginning at `pos` of `d` decodes to.
pub open spec fn signature_decoded(d: Seq<u8>, pos: int, v: Signature) -> bool {
    v.0 as int == be_u32(d[pos], d[pos + 1], d[pos + 2], d[pos + 3])
}

/// What a text body of `tag_size` bytes beginning at `pos` of `d` decodes
/// to.
pub open spec fn text_decoded(d: Seq<u8>, pos: int, tag_size: int, v: Seq<u8>) -> bool {
    &&& ascii_ok(bytes_at(d, pos, tag_size))
    &&& v == bytes_at(d, pos, tag_size).push(0)
}

/// What a data body of `tag_size` bytes beginning at `pos` of `d` decodes
/// to.
pub open spec fn data_decoded(d: Seq<u8>, pos: int, tag_size: int, v: ICCData) -> bool {
    &&& v.length == tag_size - 4
    &&& v.flag as int == be_u32(d[pos], d[pos + 1], d[pos + 2], d[pos + 3])
    &&& v.data@ == bytes_at(d, pos + 4, tag_size - 4)
}

/// What a text-description body beginning at `pos` of `d` decodes to.
pub open spec fn text_description_decoded(d: Seq<u8>, pos: int, v: Seq<u8>) -> bool {
    v == bytes_at(d, pos + 4, td_ascii_count(d, pos)).push(0)
}

/// One decoded tag body: the closed union of the decoded shapes the
/// supported tag types produce.
#[derive(Debug, Eq, PartialEq)]
pub enum DecodedTag {
    Xyz(XyzNumber),
    Chromaticity(XyYTriple),
    ColorantOrder(Vec<u8>),
    S15Fixed16Array(Vec<Fixed>),
    U16Fixed16Array(Vec<Fixed>),
    Signature(Signature),
    Text(Vec<u8>),
    Data(ICCData),
}

/// The wire codec a tag-type handler runs: one for each supported wire
/// encoding.
#[derive(Copy, Clone, Debug, Eq, PartialEq, Structural)]
pub enum TagTypeKind {
    Xyz,
    Chromaticity,
    ColorantOrder,
    S15Fixed16Array,
    U16Fixed16Array,
    Signature,
    Text,
    Data,
}

/// A tag-type handler: the codec registered for one type signature, with
/// the least format version that may carry it.
#[derive(Copy, Clone, Debug, Eq, PartialEq, Structural)]
pub struct TagTypeHandler {
    pub signature: Signature,
    pub version: u32,
    pub kind: TagTypeKind,
}

} // verus!

verus! {

impl TagTypeHandler {
    /// Runs this handler's reader on a tag body of the declared payload
    /// size, and carries the decoded value in the union arm that belongs
    /// to the handler's codec.  The element count, the decoded value and
    /// the exact success and error conditions are those of the named
    /// codec function of that arm; a failed read leaves the stream
    /// position unmoved.
    pub fn read(&self, reader: &mut ByteReader, tag_size: usize) -> (r: Result<
        (usize, DecodedTag),
        CodecError,
    >)
        requires
            tag_size <= 0xFFFF_FFFF,
        ensures
            final(reader).data@ == old(reader).data@,
            match r {
                Ok((n, v)) => match self.kind {
                    TagTypeKind::Xyz => n == 1 && final(reader).pos == old(reader).pos + 12
                        && (v matches DecodedTag::Xyz(x)
                        && xyz_decoded(old(reader).data@, old(reader).pos as int, x)),
                    TagTypeKind::Chromaticity => n == 1 && final(reader).pos == old(reader).pos
                        + 28 && (v matches DecodedTag::Chromaticity(t)
                        && chromaticity_decoded(old(reader).data@, old(reader).pos as int, t)),
                    TagTypeKind::ColorantOrder => final(reader).pos == old(reader).pos + 4
                        + n && (v matches DecodedTag::ColorantOrder(b)
                        && colorant_order_decoded(
                        old(reader).data@,
                        old(reader).pos as int,
                        n as int,
                        b@,
                    )),
                    TagTypeKind::S15Fixed16Array => n == tag_size / 4 && final(reader).pos
                        == old(reader).pos + 4 * n && (v matches
                        DecodedTag::S15Fixed16Array(vs) && s15_array_decoded(
                        old(reader).data@,
                        old(reader).pos as int,
                        n as int,
                        vs@,
                    )),
                    TagTypeKind::U16Fixed16Array => n == tag_size / 4 && final(reader).pos
                        == old(reader).pos + 4 * n && (v matches
                        DecodedTag::U16Fixed16Array(vs) && u16f16_array_decoded(
                        old(reader).data@,
                        old(reader).pos as int,
                        n as int,
                        vs@,
                    )),
                    TagTypeKind::Signature => n == 1 && final(reader).pos == old(reader).pos
                        + 4 && (v matches DecodedTag::Signature(s)
                        && signature_decoded(old(reader).data@, old(reader).pos as int, s)),
                    TagTypeKind::Text => n == 1 && final(reader).pos == old(reader).pos
                        + tag_size && (v matches DecodedTag::Text(bs)
                        && text_decoded(
                        old(reader).data@,
                        old(reader).pos as int,
                        tag_size as int,
                        bs@,
                    )),
                    TagTypeKind::Data => n == 1 && final(reader).pos == old(reader).pos
                        + tag_size && (v matches DecodedTag::Data(dv)
                        && data_decoded(
                        old(reader).data@,
                        old(reader).pos as int,
                        tag_size as int,
                        dv,
                    )),
                },
                Err(e) => final(reader).pos == old(reader).pos && ({
                    let d = old(reader).data@;
                    let pos = old(reader).pos as int;
                    let rm = old(reader).remaining_spec();
                    match self.kind {
                        TagTypeKind::Xyz => e == CodecError::UnexpectedEof && rm < 12,
                        TagTypeKind::Chromaticity => {
                            &&& (e == CodecError::InvalidData || e
                                == CodecError::UnexpectedEof)
                            &&& (e == CodecError::InvalidData <==> rm >= 2 && be_u16(
                                d[pos],
                                d[pos + 1],
                            ) != 3)
                            &&& (e == CodecError::UnexpectedEof <==> rm < 2 || (be_u16(
                                d[pos],
                                d[pos + 1],
                            ) == 3 && rm < 28))
                        },
                        TagTypeKind::ColorantOrder => {
                            let cnt = be_u32(d[pos], d[pos + 1], d[pos + 2], d[pos + 3]);
                            &&& (e == CodecError::InvalidData || e
                                == CodecError::UnexpectedEof)
                            &&& (e == CodecError::InvalidData <==> rm >= 4 && cnt > 16)
                            &&& (e == CodecError::UnexpectedEof <==> rm < 4 || (cnt <= 16
                                && rm < 4 + cnt))
                        },
                        TagTypeKind::S15Fixed16Array => e == CodecError::UnexpectedEof && rm
                            < 4 * (tag_size / 4),
                        TagTypeKind::U16Fixed16Array => e == CodecError::UnexpectedEof && rm
                            < 4 * (tag_size / 4),
                        TagTypeKind::Signature => e == CodecError::UnexpectedEof && rm < 4,
                        TagTypeKind::Text => {
                            &&& (e == CodecError::InvalidData || e
                                == CodecError::UnexpectedEof)
                            &&& (e == CodecError::UnexpectedEof <==> rm < tag_size)
                            &&& (e == CodecError::InvalidData <==> rm >= tag_size
                                && !ascii_ok(bytes_at(d, pos, tag_size as int)))
                        },
                        TagTypeKind::Data => {
                            &&& (e == CodecError::InvalidData || e
                                == CodecError::UnexpectedEof)
                            &&& (e == CodecError::InvalidData <==> tag_size < 4)
                            &&& (e == CodecError::UnexpectedEof <==> tag_size >= 4 && rm
                                < tag_size)
                        },
                    }
                }),
            },
    {
        match self.kind {
            TagTypeKind::Xyz => {
                match xyz_read(reader, tag_size) {
                    Ok((n, v)) => Ok((n, DecodedTag::Xyz(v))),
                    Err(e) => Err(e),
                }
            },
            TagTypeKind::Chromaticity => {
                match chromaticity_read(reader, tag_size) {
                    Ok((n, v)) => Ok((n, DecodedTag::Chromaticity(v))),
                    Err(e) => Err(e),
                }
            },
            TagTypeKind::ColorantOrder => {
                match colorant_order_read(reader, tag_size) {
                    Ok((n, v)) => Ok((n, DecodedTag::ColorantOrder(v))),
                    Err(e) => Err(e),
                }
            },
            TagTypeKind::S15Fixed16Array => {
                match s15_f16_read(reader, tag_size) {
                    Ok((n, v)) => Ok((n, DecodedTag::S15Fixed16Array(v))),
                    Err(e) => Err(e),
                }
            },
            TagTypeKind::U16Fixed16Array => {
                match u16_f16_read(reader, tag_size) {
                    Ok((n, v)) => Ok((n, DecodedTag::U16Fixed16Array(v))),
                    Err(e) => Err(e),
                }
            },
            TagTypeKind::Signature => {
                match signature_read(reader, tag_size) {
                    Ok((n, v)) => Ok((n, DecodedTag::Signature(v))),
                    Err(e) => Err(e),
                }
            },
            TagTypeKind::Text => {
                match text_read(reader, tag_size) {
                    Ok((n, v)) => Ok((n, DecodedTag::Text(v))),
                    Err(e) => Err(e),
                }
            },
            TagTypeKind::Data => {
                match data_read(reader, tag_size) {
                    Ok((n, v)) => Ok((n, DecodedTag::Data(v))),
                    Err(e) => Err(e),
                }
            },
        }
    }

    /// Runs this handler's writer on one decoded value.  A value carried
    /// in a union arm other than the handler's own is refused as invalid
    /// data; otherwise the wire bytes are those of the named codec
    /// function of that arm.
    pub fn write(&self, writer: &mut ByteWriter, items: &DecodedTag, count: usize) -> (r: Result<
        (),
        CodecError,
    >)
        requires
            match items {
                DecodedTag::S15Fixed16Array(vs) => count <= vs@.len(),
                DecodedTag::U16Fixed16Array(vs) => count <= vs@.len(),
                _ => true,
            },
        ensures
            match self.kind {
                TagTypeKind::Xyz => match items {
                    DecodedTag::Xyz(v) => r is Ok && final(writer).data@ == old(writer).data@
                        + s15f16_be_bytes(sat_s15(v.x.raw as int)) + s15f16_be_bytes(
                        sat_s15(v.y.raw as int),
                    ) + s15f16_be_bytes(sat_s15(v.z.raw as int)),
                    _ => r == Err::<(), CodecError>(CodecError::InvalidData) && final(writer).data@ == old(writer).data@,
                },
                TagTypeKind::Chromaticity => match items {
                    DecodedTag::Chromaticity(t) => r is Ok && final(writer).data@ == old(writer).data@ + u16_be_bytes(3) + u16_be_bytes(0) + s15f16_be_bytes(
                        sat_s15(t.red.x.raw as int),
                    ) + s15f16_be_bytes(sat_s15(t.red.y.raw as int)) + s15f16_be_bytes(
                        sat_s15(t.green.x.raw as int),
                    ) + s15f16_be_bytes(sat_s15(t.green.y.raw as int)) + s15f16_be_bytes(
                        sat_s15(t.blue.x.raw as int),
                    ) + s15f16_be_bytes(sat_s15(t.blue.y.raw as int)),
                    _ => r == Err::<(), CodecError>(CodecError::InvalidData) && final(writer).data@ == old(writer).data@,
                },
                TagTypeKind::ColorantOrder => match items {
                    DecodedTag::ColorantOrder(b) => if sentinel_count(b@) <= 16 {
                        r is Ok && final(writer).data@ == old(writer).data@ + u32_be_bytes(
                            sentinel_count(b@) as u32,
                        ) + b@.take(sentinel_count(b@))
                    } else {
                        r == Err::<(), CodecError>(CodecError::InvalidData) && final(writer).data@ == old(writer).data@
                    },
                    _ => r == Err::<(), CodecError>(CodecError::InvalidData) && final(writer).data@ == old(writer).data@,
                },
                TagTypeKind::S15Fixed16Array => match items {
                    DecodedTag::S15Fixed16Array(vs) => r is Ok && final(writer).data@ == old(writer).data@ + s15_seq_be_bytes(vs@.take(count as int)),
                    _ => r == Err::<(), CodecError>(CodecError::InvalidData) && final(writer).data@ == old(writer).data@,
                },
                TagTypeKind::U16Fixed16Array => match items {
                    DecodedTag::U16Fixed16Array(vs) => r is Ok && final(writer).data@ == old(writer).data@ + u16f16_seq_be_bytes(vs@.take(count as int)),
                    _ => r == Err::<(), CodecError>(CodecError::InvalidData) && final(writer).data@ == old(writer).data@,
                },
                TagTypeKind::Signature => match items {
                    DecodedTag::Signature(s) => r is Ok && final(writer).data@ == old(writer).data@ + u32_be_bytes(s.0),
                    _ => r == Err::<(), CodecError>(CodecError::InvalidData) && final(writer).data@ == old(writer).data@,
                },
                TagTypeKind::Text => match items {
                    DecodedTag::Text(bs) => if ascii_ok(bs@) {
                        r is Ok && final(writer).data@ == old(writer).data@ + bs@ + (
                        if bs@.len() == 0 || bs@.last() != 0 {
                            seq![0u8]
                        } else {
                            Seq::<u8>::empty()
                        })
                    } else {
                        r == Err::<(), CodecError>(CodecError::InvalidData) && final(writer).data@ == old(writer).data@
                    },
                    _ => r == Err::<(), CodecError>(CodecError::InvalidData) && final(writer).data@ == old(writer).data@,
                },
                TagTypeKind::Data => match items {
                    DecodedTag::Data(dv) => if dv.data@.len() == dv.length {
                        r is Ok && final(writer).data@ == old(writer).data@ + u32_be_bytes(
                            dv.flag,
                        ) + dv.data@
                    } else {
                        r == Err::<(), CodecError>(CodecError::InvalidData) && final(writer).data@ == old(writer).data@
                    },
                    _ => r == Err::<(), CodecError>(CodecError::InvalidData) && final(writer).data@ == old(writer).data@,
                },
            },
    {
        match self.kind {
            TagTypeKind::Xyz => {
                match items {
                    DecodedTag::Xyz(v) => xyz_write(writer, v, count),
                    _ => Err(CodecError::InvalidData),
                }
            },
            TagTypeKind::Chromaticity => {
                match items {
                    DecodedTag::Chromaticity(t) => chromaticity_write(writer, t, count),
                    _ => Err(CodecError::InvalidData),
                }
            },
            TagTypeKind::ColorantOrder => {
                match items {
                    DecodedTag::ColorantOrder(b) => colorant_order_write(
                        writer,
                        b.as_slice(),
                        count,
                    ),
                    _ => Err(CodecError::InvalidData),
                }
            },
            TagTypeKind::S15Fixed16Array => {
                match items {
                    DecodedTag::S15Fixed16Array(vs) => s15_f16_write(
                        writer,
                        vs.as_slice(),
                        count,
                    ),
                    _ => Err(CodecError::InvalidData),
                }
            },
            TagTypeKind::U16Fixed16Array => {
                match items {
                    DecodedTag::U16Fixed16Array(vs) => u16_f16_write(
                        writer,
                        vs.as_slice(),
                        count,
                    ),
                    _ => Err(CodecError::InvalidData),
                }
            },
            TagTypeKind::Signature => {
                match items {
                    DecodedTag::Signature(s) => signature_write(writer, s, count),
                    _ => Err(CodecError::InvalidData),
                }
            },
            TagTypeKind::Text => {
                match items {
                    DecodedTag::Text(bs) => text_write(writer, bs.as_slice(), count),
                    _ => Err(CodecError::InvalidData),
                }
            },
            TagTypeKind::Data => {
                match items {
                    DecodedTag::Data(dv) => data_write(writer, dv, count),
                    _ => Err(CodecError::InvalidData),
                }
            },
        }
    }
}

} // verus!

verus! {

/// The built-in tag-type handlers, in registration order.  The XYZ codec
/// is registered twice: under its own type signature and under a vendor
/// signature seen in the wild whose bodies are byte-identical, so both
/// decode the same way.
pub fn supported_tag_types() -> (r: Vec<TagTypeHandler>)
    ensures
        r@.len() == 9,
        r@[0] == (TagTypeHandler {
            signature: Signature(crate::signatures::TYPE_CHROMATICITY),
            version: 0,
            kind: TagTypeKind::Chromaticity,
        }),
        r@[1] == (TagTypeHandler {
            signature: Signature(crate::signatures::TYPE_COLORANT_ORDER),
            version: 0,
            kind: TagTypeKind::ColorantOrder,
        }),
        r@[2] == (TagTypeHandler {
            signature: Signature(crate::signatures::TYPE_S15_FIXED16_ARRAY),
            version: 0,
            kind: TagTypeKind::S15Fixed16Array,
        }),
        r@[3] == (TagTypeHandler {
            signature: Signature(crate::signatures::TYPE_U16_FIXED16_ARRAY),
            version: 0,
            kind: TagTypeKind::U16Fixed16Array,
        }),
        r@[4] == (TagTypeHandler {
            signature: Signature(crate::signatures::TYPE_TEXT),
            version: 0,
            kind: TagTypeKind::Text,
        }),
        r@[5] == (TagTypeHandler {
            signature: Signature(crate::signatures::TYPE_SIGNATURE),
            version: 0,
            kind: TagTypeKind::Signature,
        }),
        r@[6] == (TagTypeHandler {
            signature: Signature(crate::signatures::TYPE_DATA),
            version: 0,
            kind: TagTypeKind::Data,
        }),
        r@[7] == (TagTypeHandler {
            signature: Signature(crate::signatures::TYPE_XYZ),
            version: 0,
            kind: TagTypeKind::Xyz,
        }),
        r@[8] == (TagTypeHandler {
            signature: Signature(crate::signatures::CORBIS_BROKEN_XYZ_TYPE),
            version: 0,
            kind: TagTypeKind::Xyz,
        }),
{
    let mut r: Vec<TagTypeHandler> = Vec::new();
    r.push(TagTypeHandler {
        signature: Signature(crate::signatures::TYPE_CHROMATICITY),
        version: 0,
        kind: TagTypeKind::Chromaticity,
    });
    r.push(TagTypeHandler {
        signature: Signature(crate::signatures::TYPE_COLORANT_ORDER),
        version: 0,
        kind: TagTypeKind::ColorantOrder,
    });
    r.push(TagTypeHandler {
        signature: Signature(crate::signatures::TYPE_S15_FIXED16_ARRAY),
        version: 0,
        kind: TagTypeKind::S15Fixed16Array,
    });
    r.push(TagTypeHandler {
        signature: Signature(crate::signatures::TYPE_U16_FIXED16_ARRAY),
        version: 0,
        kind: TagTypeKind::U16Fixed16Array,
    });
    r.push(TagTypeHandler {
        signature: Signature(crate::signatures::TYPE_TEXT),
        version: 0,
        kind: TagTypeKind::Text,
    });
    r.push(TagTypeHandler {
        signature: Signature(crate::signatures::TYPE_SIGNATURE),
        version: 0,
        kind: TagTypeKind::Signature,
    });
    r.push(TagTypeHandler {
        signature: Signature(crate::signatures::TYPE_DATA),
        version: 0,
        kind: TagTypeKind::Data,
    });
    r.push(TagTypeHandler {
        signature: Signature(crate::signatures::TYPE_XYZ),
        version: 0,
        kind: TagTypeKind::Xyz,
    });
    r.push(TagTypeHandler {
        signature: Signature(crate::signatures::CORBIS_BROKEN_XYZ_TYPE),
        version: 0,
        kind: TagTypeKind::Xyz,
    });
    r
}

/// Finds the handler registered for a type signature: the index of the
/// first entry bearing it, scanning front to back, so that an entry put
/// before another wins the lookup.
pub fn find_tag_type_handler(handlers: &Vec<TagTypeHandler>, sig: Signature) -> (r: Option<
    usize,
>)
    ensures
        match r {
            Some(i) => {
                &&& i < handlers@.len()
                &&& handlers@[i as int].signature == sig
                &&& forall|j: int| 0 <= j < i ==> handlers@[j].signature != sig
            },
            None => forall|j: int|
                0 <= j < handlers@.len() ==> handlers@[j].signature != sig,
        },
{
    let mut i: usize = 0;
    while i < handlers.len()
        invariant
            i <= handlers@.len(),
            forall|j: int| 0 <= j < i ==> handlers@[j].signature != sig,
        decreases handlers@.len() - i,
    {
        if handlers[i].signature == sig {
            return Some(i);
        }
        i = i + 1;
    }
    None
}

/// Law: the XYZ codec round-trips — a triple whose components fit the
/// signed 15.16 wire word, once encoded, decodes to the very same triple.
pub proof fn lemma_xyz_round_trip(v: XyzNumber)
    requires
        -0x8000_0000 <= v.x.raw <= 0x7FFF_FFFF,
        -0x8000_0000 <= v.y.raw <= 0x7FFF_FFFF,
        -0x8000_0000 <= v.z.raw <= 0x7FFF_FFFF,
    ensures
        xyz_decoded(
            s15f16_be_bytes(sat_s15(v.x.raw as int)) + s15f16_be_bytes(sat_s15(v.y.raw as int))
                + s15f16_be_bytes(sat_s15(v.z.raw as int)),
            0,
            v,
        ),
{
    let bx = s15f16_be_bytes(sat_s15(v.x.raw as int));
    let by = s15f16_be_bytes(sat_s15(v.y.raw as int));
    let bz = s15f16_be_bytes(sat_s15(v.z.raw as int));
    let d = bx + by + bz;
    assert(sat_s15(v.x.raw as int) == v.x.raw as int);
    assert(sat_s15(v.y.raw as int) == v.y.raw as int);
    assert(sat_s15(v.z.raw as int) == v.z.raw as int);
    crate::stream::lemma_s15f16_codec_round_trip(v.x.raw as int);
    crate::stream::lemma_s15f16_codec_round_trip(v.y.raw as int);
    crate::stream::lemma_s15f16_codec_round_trip(v.z.raw as int);
    assert(d[0] == bx[0] && d[1] == bx[1] && d[2] == bx[2] && d[3] == bx[3]);
    assert(d[4] == by[0] && d[5] == by[1] && d[6] == by[2] && d[7] == by[3]);
    assert(d[8] == bz[0] && d[9] == bz[1] && d[10] == bz[2] && d[11] == bz[3]);
}

/// Law: the colorant-order codec round-trips — a decoded buffer holding
/// at most [`crate::MAX_CHANNELS`] colorants, once encoded, decodes to a
/// count equal to the number of colorants it held, the same index bytes,
/// and a sentinel-filled tail.
pub proof fn lemma_colorant_order_round_trip(items: Seq<u8>)
    requires
        0 <= sentinel_count(items) <= 16,
    ensures
        colorant_order_decoded(
            u32_be_bytes(sentinel_count(items) as u32) + items.take(sentinel_count(items)),
            0,
            sentinel_count(items),
            items.take(sentinel_count(items)) + Seq::new(
                (16 - sentinel_count(items)) as nat,
                |j: int| 0xFFu8,
            ),
        ),
{
    let c = sentinel_count(items);
    lemma_sentinel_count_le_len(items);
    let wire = u32_be_bytes(c as u32) + items.take(c);
    let buf = items.take(c) + Seq::new((16 - c) as nat, |j: int| 0xFFu8);
    crate::stream::lemma_u32_codec_round_trip(c as u32);
    assert(wire[0] == u32_be_bytes(c as u32)[0] && wire[1] == u32_be_bytes(c as u32)[1]
        && wire[2] == u32_be_bytes(c as u32)[2] && wire[3] == u32_be_bytes(c as u32)[3]);
    assert(c == be_u32(wire[0], wire[1], wire[2], wire[3]));
    assert(buf.len() == 16);
    assert(forall|i: int| 0 <= i < c ==> #[trigger] buf[i] == wire[4 + i]);
    assert(forall|i: int| c <= i < 16 ==> #[trigger] buf[i] == 0xFF);
}

} // verus!
