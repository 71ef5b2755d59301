//! The eight bytes every tag body starts with: the body's own type
//! signature and four reserved bytes.

use vstd::prelude::*;
use crate::error::CodecError;
use crate::signature::Signature;
use crate::stream::ByteReader;
use crate::stream::ByteWriter;
use crate::stream::be_u32;
use crate::stream::u32_be_bytes;
use crate::stream::read_u32;
use crate::stream::read_bytes;
use crate::stream::write_u32;
use crate::stream::write_bytes;

verus! {

/// What a tag body starts with on the wire.
#[derive(Copy, Clone, Debug, Eq, PartialEq)]
pub struct CmsTagBase {
    pub signature: Signature,
    pub reserved: [u8; 4],
}

impl CmsTagBase {
    /// A tag base for the given signature word, the reserved bytes zero.
    pub fn from_u32(value: u32) -> (r: CmsTagBase)
        ensures
            r.signature.0 == value,
            r.reserved@ == seq![0u8, 0u8, 0u8, 0u8],
    {
        let r = CmsTagBase { signature: Signature::from_u32(value), reserved: [0u8; 4] };
        proof {
            assert(r.reserved@ =~= seq![0u8, 0u8, 0u8, 0u8]);
        }
        r
    }

    /// The signature's word.
    pub fn to_u32(self) -> (r: u32)
        ensures
            r == self.signature.0,
    {
        self.signature.to_u32()
    }

    /// Reads a tag base: the signature big-endian, then the four reserved
    /// bytes as they stand.
    pub fn read(reader: &mut ByteReader) -> (r: Result<CmsTagBase, CodecError>)
        ensures
            final(reader).data@ == old(reader).data@,
            match r {
                Ok(v) => {
                    &&& old(reader).remaining_spec() >= 8
                    &&& final(reader).pos == old(reader).pos + 8
                    &&& v.signature.0 as int == be_u32(
                        old(reader).data@[old(reader).pos as int],
                        old(reader).data@[old(reader).pos + 1],
                        old(reader).data@[old(reader).pos + 2],
                        old(reader).data@[old(reader).pos + 3],
                    )
                    &&& forall|j: int|
                        0 <= j < 4 ==> #[trigger] v.reserved@[j] == old(reader).data@[old(
                            reader,
                        ).pos + 4 + j]
                },
                Err(e) => {
                    &&& e == CodecError::UnexpectedEof
                    &&& old(reader).remaining_spec() < 8
                    &&& final(reader).pos == old(reader).pos
                },
            },
    {
        if reader.remaining() < 8 {
            return Err(CodecError::UnexpectedEof);
        }
        let word = match read_u32(reader) {
            Ok(v) => v,
            Err(e) => {
                proof {
                    assert(false);
                }
                return Err(e);
            },
        };
        let rest = match read_bytes(reader, 4) {
            Ok(v) => v,
            Err(e) => {
                proof {
                    assert(false);
                }
                return Err(e);
            },
        };
        let reserved = [rest[0], rest[1], rest[2], rest[3]];
        Ok(CmsTagBase { signature: Signature::from_u32(word), reserved })
    }

    /// Reads only the type signature of a tag base, answering the zero
    /// signature when the stream cannot supply a whole tag base.
    pub fn read_type_base(reader: &mut ByteReader) -> (r: Signature)
        ensures
            final(reader).data@ == old(reader).data@,
            old(reader).remaining_spec() >= 8 ==> r.0 as int == be_u32(
                old(reader).data@[old(reader).pos as int],
                old(reader).data@[old(reader).pos + 1],
                old(reader).data@[old(reader).pos + 2],
                old(reader).data@[old(reader).pos + 3],
            ) && final(reader).pos == old(reader).pos + 8,
            old(reader).remaining_spec() < 8 ==> r.0 == 0 && final(reader).pos == old(
                reader,
            ).pos,
    {
        match CmsTagBase::read(reader) {
            Ok(v) => v.signature,
            Err(_) => Signature::from_u32(0),
        }
    }

    /// Writes a tag base: the signature big-endian, then the reserved
    /// bytes as they stand.
    pub fn write(self, writer: &mut ByteWriter) -> (r: Result<(), CodecError>)
        ensures
            r is Ok,
            final(writer).data@ == old(writer).data@ + u32_be_bytes(self.signature.0)
                + self.reserved@,
    {
        let _r1 = write_u32(writer, self.signature.to_u32());
        let _r2 = write_bytes(writer, self.reserved.as_slice());
        Ok(())
    }
}

} // verus!
