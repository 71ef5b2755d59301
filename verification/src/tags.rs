//! The tag descriptor registry: for each known tag purpose, how many
//! elements the tag carries, which type signatures may encode it, and the
//! rule that picks the encoding when new tag data is produced.
//!
//! A format version is always handed around in hundredths of the
//! major.minor number (a version 4.30 profile is 430), so the 4.0 cutoff
//! the rules test for is the value 400.

use vstd::prelude::*;
use crate::signature::Signature;
use crate::signatures::CORBIS_BROKEN_XYZ_TYPE;
use crate::signatures::MONACO_BROKEN_CURVE_TYPE;
use crate::signatures::TAG_ARGYLL_ARTS;
use crate::signatures::TAG_A_TO_B0;
use crate::signatures::TAG_A_TO_B1;
use crate::signatures::TAG_A_TO_B2;
use crate::signatures::TAG_BLUE_COLORANT;
use crate::signatures::TAG_BLUE_TRC;
use crate::signatures::TAG_B_TO_A0;
use crate::signatures::TAG_B_TO_A1;
use crate::signatures::TAG_B_TO_A2;
use crate::signatures::TAG_B_TO_D0;
use crate::signatures::TAG_B_TO_D1;
use crate::signatures::TAG_B_TO_D2;
use crate::signatures::TAG_B_TO_D3;
use crate::signatures::TAG_CALIBRATION_DATE_TIME;
use crate::signatures::TAG_CHAR_TARGET;
use crate::signatures::TAG_CHROMATICITY;
use crate::signatures::TAG_CHROMATIC_ADAPTATION;
use crate::signatures::TAG_COLORANT_ORDER;
use crate::signatures::TAG_COLORANT_TABLE;
use crate::signatures::TAG_COLORANT_TABLE_OUT;
use crate::signatures::TAG_COLORIMETRIC_INTENT_IMAGE_STATE;
use crate::signatures::TAG_COPYRIGHT;
use crate::signatures::TAG_CRD_INFO;
use crate::signatures::TAG_DATE_TIME;
use crate::signatures::TAG_DEVICE_MFG_DESC;
use crate::signatures::TAG_DEVICE_MODEL_DESC;
use crate::signatures::TAG_D_TO_B0;
use crate::signatures::TAG_D_TO_B1;
use crate::signatures::TAG_D_TO_B2;
use crate::signatures::TAG_D_TO_B3;
use crate::signatures::TAG_GAMUT;
use crate::signatures::TAG_GRAY_TRC;
use crate::signatures::TAG_GREEN_COLORANT;
use crate::signatures::TAG_GREEN_TRC;
use crate::signatures::TAG_LUMINANCE;
use crate::signatures::TAG_MEASUREMENT;
use crate::signatures::TAG_MEDIA_BLACK_POINT;
use crate::signatures::TAG_MEDIA_WHITE_POINT;
use crate::signatures::TAG_META;
use crate::signatures::TAG_NAMED_COLOR2;
use crate::signatures::TAG_PERCEPTUAL_RENDERING_INTENT_GAMUT;
use crate::signatures::TAG_PREVIEW0;
use crate::signatures::TAG_PREVIEW1;
use crate::signatures::TAG_PREVIEW2;
use crate::signatures::TAG_PROFILE_DESCRIPTION;
use crate::signatures::TAG_PROFILE_DESCRIPTION_ML;
use crate::signatures::TAG_PROFILE_SEQUENCE_DESC;
use crate::signatures::TAG_PROFILE_SEQUENCE_ID;
use crate::signatures::TAG_PS2_CRD0;
use crate::signatures::TAG_PS2_CRD1;
use crate::signatures::TAG_PS2_CRD2;
use crate::signatures::TAG_PS2_CRD3;
use crate::signatures::TAG_PS2_CSA;
use crate::signatures::TAG_PS2_RENDERING_INTENT;
use crate::signatures::TAG_RED_COLORANT;
use crate::signatures::TAG_RED_TRC;
use crate::signatures::TAG_SATURATION_RENDERING_INTENT_GAMUT;
use crate::signatures::TAG_SCREENING;
use crate::signatures::TAG_SCREENING_DESC;
use crate::signatures::TAG_TECHNOLOGY;
use crate::signatures::TAG_UCR_BG;
use crate::signatures::TAG_VCGT;
use crate::signatures::TAG_VIEWING_CONDITIONS;
use crate::signatures::TAG_VIEWING_COND_DESC;
use crate::signatures::TYPE_CHROMATICITY;
use crate::signatures::TYPE_COLORANT_ORDER;
use crate::signatures::TYPE_COLORANT_TABLE;
use crate::signatures::TYPE_CRD_INFO;
use crate::signatures::TYPE_CURVE;
use crate::signatures::TYPE_DATA;
use crate::signatures::TYPE_DATE_TIME;
use crate::signatures::TYPE_DICT;
use crate::signatures::TYPE_LUT16;
use crate::signatures::TYPE_LUT8;
use crate::signatures::TYPE_LUT_A_TO_B;
use crate::signatures::TYPE_LUT_B_TO_A;
use crate::signatures::TYPE_MEASUREMENT;
use crate::signatures::TYPE_MULTI_LOCALIZED_UNICODE;
use crate::signatures::TYPE_MULTI_PROCESS_ELEMENT;
use crate::signatures::TYPE_NAMED_COLOR2;
use crate::signatures::TYPE_PARAMETRIC_CURVE;
use crate::signatures::TYPE_PROFILE_SEQUENCE_DESC;
use crate::signatures::TYPE_PROFILE_SEQUENCE_ID;
use crate::signatures::TYPE_S15_FIXED16_ARRAY;
use crate::signatures::TYPE_SCREENING;
use crate::signatures::TYPE_SIGNATURE;
use crate::signatures::TYPE_TEXT;
use crate::signatures::TYPE_TEXT_DESCRIPTION;
use crate::signatures::TYPE_UCR_BG;
use crate::signatures::TYPE_VCGT;
use crate::signatures::TYPE_VIEWING_CONDITIONS;
use crate::signatures::TYPE_XYZ;

verus! {

/// The version cutoff, in hundredths, at or above which the
/// version-4 encodings are chosen.
pub const VERSION_4: u32 = 400;

/// A write-time encoding decision rule: the closed union of the rules the
/// registry knows.  Each names a pure function of the format version and a
/// short peek at the content to encode.
#[derive(Copy, Clone, Debug, Eq, PartialEq, Structural)]
pub enum TypeDecider {
    /// Always the XYZ type.
    Xyz,
    /// Multi-localized Unicode from version 4.0 on, plain text before.
    Text,
    /// A version-4 A-to-B table from 4.0 on; before that, an 8- or 16-bit
    /// table as a flag byte in the content asks.
    LutAToB,
    /// The same rule toward the B-to-A table type.
    LutBToA,
    /// A parametric curve only when the content is one segment of a known
    /// parametric form; the plain curve type otherwise.
    Curve,
    /// Multi-localized Unicode from version 4.0 on, the legacy
    /// text-description type before.
    TextDescription,
}

/// What a tag descriptor promises of every tag purpose it describes.
pub open spec fn descriptor_wf(d: TagDescriptor) -> bool {
    &&& d.element_count >= 1
    &&& d.supported_types@.len() >= 1
}

/// The rules registered for one tag purpose.
#[derive(Debug, Eq, PartialEq)]
pub struct TagDescriptor {
    /// How many elements an array-shaped tag keeps; always at least 1.
    pub element_count: u32,
    /// The type signatures legal for this tag purpose, the preferred one
    /// first; never empty for a descriptor in use.
    pub supported_types: Vec<Signature>,
    /// The rule that picks the wire encoding when producing tag data; on
    /// reading, the wire's own type signature is authoritative instead.
    pub decide_type: Option<TypeDecider>,
}

/// One entry of the descriptor registry: a tag purpose and its rules.
#[derive(Debug, Eq, PartialEq)]
pub struct TagListItem {
    pub sig: Signature,
    pub desc: TagDescriptor,
}

impl TagDescriptor {
    /// An element-for-element copy that shares nothing with the original.
    pub fn duplicate(&self) -> (r: Self)
        ensures
            r.element_count == self.element_count,
            r.supported_types@ == self.supported_types@,
            r.decide_type == self.decide_type,
    {
        let mut types: Vec<Signature> = Vec::new();
        let mut i: usize = 0;
        while i < self.supported_types.len()
            invariant
                i <= self.supported_types@.len(),
                types@ == self.supported_types@.take(i as int),
            decreases self.supported_types@.len() - i,
        {
            let s = self.supported_types[i];
            types.push(s);
            proof {
                assert(types@ =~= self.supported_types@.take(i + 1));
            }
            i = i + 1;
        }
        proof {
            assert(self.supported_types@.take(self.supported_types@.len() as int)
                =~= self.supported_types@);
        }
        TagDescriptor {
            element_count: self.element_count,
            supported_types: types,
            decide_type: self.decide_type,
        }
    }

    /// Runs this descriptor's decision rule, if it has one, on the format
    /// version and a peek at the content to encode; without a rule, the
    /// first legal type is the answer.
    pub fn decide(&self, version: u32, data: &[i8]) -> (r: Signature)
        requires
            descriptor_wf(*self),
            self.decide_type == Some(TypeDecider::Curve) ==> data@.len() >= 2,
            self.decide_type == Some(TypeDecider::LutAToB) ==> data@.len() >= 1,
            self.decide_type == Some(TypeDecider::LutBToA) ==> data@.len() >= 1,
        ensures
            r == match self.decide_type {
                Some(TypeDecider::Xyz) => Signature(TYPE_XYZ),
                Some(TypeDecider::Text) => Signature(
                    if version >= VERSION_4 {
                        TYPE_MULTI_LOCALIZED_UNICODE
                    } else {
                        TYPE_TEXT
                    },
                ),
                Some(TypeDecider::LutAToB) => Signature(
                    if version < VERSION_4 {
                        if data@[0] != 0 {
                            TYPE_LUT8
                        } else {
                            TYPE_LUT16
                        }
                    } else {
                        TYPE_LUT_A_TO_B
                    },
                ),
                Some(TypeDecider::LutBToA) => Signature(
                    if version < VERSION_4 {
                        if data@[0] != 0 {
                            TYPE_LUT8
                        } else {
                            TYPE_LUT16
                        }
                    } else {
                        TYPE_LUT_B_TO_A
                    },
                ),
                Some(TypeDecider::Curve) => Signature(
                    if version < VERSION_4 {
                        TYPE_CURVE
                    } else if data@[0] != 1 {
                        TYPE_CURVE
                    } else if data@[1] < 0 || data@[1] > 5 {
                        TYPE_CURVE
                    } else {
                        TYPE_PARAMETRIC_CURVE
                    },
                ),
                Some(TypeDecider::TextDescription) => Signature(
                    if version >= VERSION_4 {
                        TYPE_MULTI_LOCALIZED_UNICODE
                    } else {
                        TYPE_TEXT_DESCRIPTION
                    },
                ),
                None => self.supported_types@[0],
            },
    {
        match self.decide_type {
            Some(TypeDecider::Xyz) => decide_xyz_type(version, data),
            Some(TypeDecider::Text) => decide_text_type(version, data),
            Some(TypeDecider::LutAToB) => decide_lut_type_a_to_b(version, data),
            Some(TypeDecider::LutBToA) => decide_lut_type_b_to_a(version, data),
            Some(TypeDecider::Curve) => decide_curve_type(version, data),
            Some(TypeDecider::TextDescription) => decide_text_desc_type(version, data),
            None => self.supported_types[0],
        }
    }
}

impl TagListItem {
    /// An element-for-element copy that shares nothing with the original.
    pub fn duplicate(&self) -> (r: Self)
        ensures
            r.sig == self.sig,
            r.desc.element_count == self.desc.element_count,
            r.desc.supported_types@ == self.desc.supported_types@,
            r.desc.decide_type == self.desc.decide_type,
    {
        TagListItem { sig: self.sig, desc: self.desc.duplicate() }
    }
}

/// Picks the encoding of an XYZ-valued tag: always the XYZ type.
pub fn decide_xyz_type(_version: u32, _data: &[i8]) -> (r: Signature)
    ensures
        r == Signature(TYPE_XYZ),
{
    Signature(TYPE_XYZ)
}

/// Picks the encoding of a text-purposed tag: multi-localized Unicode from
/// format version 4.0 on, plain text before.
pub fn decide_text_type(version: u32, _data: &[i8]) -> (r: Signature)
    ensures
        r == Signature(
            if version >= VERSION_4 {
                TYPE_MULTI_LOCALIZED_UNICODE
            } else {
                TYPE_TEXT
            },
        ),
{
    if version >= VERSION_4 {
        Signature(TYPE_MULTI_LOCALIZED_UNICODE)
    } else {
        Signature(TYPE_TEXT)
    }
}

/// Picks the encoding of an A-to-B lookup table.  Before format version
/// 4.0 a flag byte at the front of the content peek asks for the 8-bit
/// table when nonzero, the 16-bit table otherwise; from 4.0 on the
/// version-4 table type is chosen whatever the flag.  The peek must hold
/// that flag byte: a shorter peek is a caller error, not a data error.
pub fn decide_lut_type_a_to_b(version: u32, data: &[i8]) -> (r: Signature)
    requires
        data@.len() >= 1,
    ensures
        r == Signature(
            if version < VERSION_4 {
                if data@[0] != 0 {
                    TYPE_LUT8
                } else {
                    TYPE_LUT16
                }
            } else {
                TYPE_LUT_A_TO_B
            },
        ),
{
    let save_as_8_bits = data[0];
    if version < VERSION_4 {
        if save_as_8_bits != 0 {
            Signature(TYPE_LUT8)
        } else {
            Signature(TYPE_LUT16)
        }
    } else {
        Signature(TYPE_LUT_A_TO_B)
    }
}

/// Picks the encoding of a B-to-A lookup table, by the same rule as its
/// A-to-B counterpart.
pub fn decide_lut_type_b_to_a(version: u32, data: &[i8]) -> (r: Signature)
    requires
        data@.len() >= 1,
    ensures
        r == Signature(
            if version < VERSION_4 {
                if data@[0] != 0 {
                    TYPE_LUT8
                } else {
                    TYPE_LUT16
                }
            } else {
                TYPE_LUT_B_TO_A
            },
        ),
{
    let save_as_8_bits = data[0];
    if version < VERSION_4 {
        if save_as_8_bits != 0 {
            Signature(TYPE_LUT8)
        } else {
            Signature(TYPE_LUT16)
        }
    } else {
        Signature(TYPE_LUT_B_TO_A)
    }
}

/// Picks the encoding of a tone curve from a peek at (segment count,
/// first segment type).  Before format version 4.0 the plain curve type
/// is chosen unconditionally; from 4.0 on, a parametric curve only when
/// the content is a single segment of one of the six parametric forms,
/// the most compatible encoding otherwise.  The peek must hold both
/// bytes: a shorter peek is a caller error, not a data error.
pub fn decide_curve_type(version: u32, data: &[i8]) -> (r: Signature)
    requires
        data@.len() >= 2,
    ensures
        r == Signature(
            if version < VERSION_4 {
                TYPE_CURVE
            } else if data@[0] != 1 {
                TYPE_CURVE
            } else if data@[1] < 0 || data@[1] > 5 {
                TYPE_CURVE
            } else {
                TYPE_PARAMETRIC_CURVE
            },
        ),
{
    let segments = data[0];
    let segment_type = data[1];
    if version < VERSION_4 {
        Signature(TYPE_CURVE)
    } else if segments != 1 {
        Signature(TYPE_CURVE)
    } else if segment_type < 0 || segment_type > 5 {
        Signature(TYPE_CURVE)
    } else {
        Signature(TYPE_PARAMETRIC_CURVE)
    }
}

/// Picks the encoding of a description-purposed tag: multi-localized
/// Unicode from format version 4.0 on, the legacy text-description type
/// before.
pub fn decide_text_desc_type(version: u32, _data: &[i8]) -> (r: Signature)
    ensures
        r == Signature(
            if version >= VERSION_4 {
                TYPE_MULTI_LOCALIZED_UNICODE
            } else {
                TYPE_TEXT_DESCRIPTION
            },
        ),
{
    if version >= VERSION_4 {
        Signature(TYPE_MULTI_LOCALIZED_UNICODE)
    } else {
        Signature(TYPE_TEXT_DESCRIPTION)
    }
}

/// What one registry entry holds: its tag purpose, its cardinality, how
/// many type signatures are legal for it and which stands first, and its
/// decision rule.
pub open spec fn item_is(
    it: TagListItem,
    sig: u32,
    element_count: int,
    first_type: u32,
    n_types: int,
    decide: Option<TypeDecider>,
) -> bool {
    &&& it.sig.0 == sig
    &&& it.desc.element_count == element_count
    &&& it.desc.supported_types@.len() == n_types
    &&& it.desc.supported_types@[0].0 == first_type
    &&& it.desc.decide_type == decide
}
/// The canonical seed of the descriptor registry: every tag purpose the
/// library knows, in registration order.
#[verifier::rlimit(100)]
pub fn supported_tags() -> (r: Vec<TagListItem>)
    ensures
        r@.len() == 64,
        forall|i: int| 0 <= i < r@.len() ==> descriptor_wf(#[trigger] r@[i].desc),
        item_is(r@[0], TAG_A_TO_B0, 1, TYPE_LUT16, 3, Some(TypeDecider::LutAToB)),
        item_is(r@[1], TAG_A_TO_B1, 1, TYPE_LUT16, 3, Some(TypeDecider::LutAToB)),
        item_is(r@[2], TAG_A_TO_B2, 1, TYPE_LUT16, 3, Some(TypeDecider::LutAToB)),
        item_is(r@[3], TAG_B_TO_A0, 1, TYPE_LUT16, 3, Some(TypeDecider::LutBToA)),
        item_is(r@[4], TAG_B_TO_A1, 1, TYPE_LUT16, 3, Some(TypeDecider::LutBToA)),
        item_is(r@[5], TAG_B_TO_A2, 1, TYPE_LUT16, 3, Some(TypeDecider::LutBToA)),
        item_is(r@[6], TAG_RED_COLORANT, 1, TYPE_XYZ, 2, Some(TypeDecider::Xyz)),
        item_is(r@[7], TAG_GREEN_COLORANT, 1, TYPE_XYZ, 2, Some(TypeDecider::Xyz)),
        item_is(r@[8], TAG_BLUE_COLORANT, 1, TYPE_XYZ, 2, Some(TypeDecider::Xyz)),
        item_is(r@[9], TAG_RED_TRC, 1, TYPE_CURVE, 3, Some(TypeDecider::Curve)),
        item_is(r@[10], TAG_GREEN_TRC, 1, TYPE_CURVE, 3, Some(TypeDecider::Curve)),
        item_is(r@[11], TAG_BLUE_TRC, 1, TYPE_CURVE, 3, Some(TypeDecider::Curve)),
        item_is(r@[12], TAG_CALIBRATION_DATE_TIME, 1, TYPE_DATE_TIME, 1, None::<TypeDecider>),
        item_is(r@[13], TAG_CHAR_TARGET, 1, TYPE_TEXT, 1, None::<TypeDecider>),
        item_is(r@[14], TAG_CHROMATIC_ADAPTATION, 9, TYPE_S15_FIXED16_ARRAY, 1, None::<TypeDecider>),
        item_is(r@[15], TAG_CHROMATICITY, 1, TYPE_CHROMATICITY, 1, None::<TypeDecider>),
        item_is(r@[16], TAG_COLORANT_ORDER, 1, TYPE_COLORANT_ORDER, 1, None::<TypeDecider>),
        item_is(r@[17], TAG_COLORANT_TABLE, 1, TYPE_COLORANT_TABLE, 1, None::<TypeDecider>),
        item_is(r@[18], TAG_COLORANT_TABLE_OUT, 1, TYPE_COLORANT_TABLE, 1, None::<TypeDecider>),
        item_is(r@[19], TAG_COPYRIGHT, 1, TYPE_TEXT, 3, Some(TypeDecider::Text)),
        item_is(r@[20], TAG_DATE_TIME, 1, TYPE_DATE_TIME, 1, None::<TypeDecider>),
        item_is(r@[21], TAG_DEVICE_MFG_DESC, 1, TYPE_TEXT_DESCRIPTION, 3, Some(TypeDecider::TextDescription)),
        item_is(r@[22], TAG_DEVICE_MODEL_DESC, 1, TYPE_TEXT_DESCRIPTION, 3, Some(TypeDecider::TextDescription)),
        item_is(r@[23], TAG_GAMUT, 1, TYPE_LUT16, 3, Some(TypeDecider::LutBToA)),
        item_is(r@[24], TAG_GRAY_TRC, 1, TYPE_CURVE, 2, Some(TypeDecider::Curve)),
        item_is(r@[25], TAG_LUMINANCE, 1, TYPE_XYZ, 1, None::<TypeDecider>),
        item_is(r@[26], TAG_MEDIA_BLACK_POINT, 1, TYPE_XYZ, 2, None::<TypeDecider>),
        item_is(r@[27], TAG_MEDIA_WHITE_POINT, 1, TYPE_XYZ, 2, None::<TypeDecider>),
        item_is(r@[28], TAG_NAMED_COLOR2, 1, TYPE_NAMED_COLOR2, 1, None::<TypeDecider>),
        item_is(r@[29], TAG_PREVIEW0, 1, TYPE_LUT16, 3, Some(TypeDecider::LutBToA)),
        item_is(r@[30], TAG_PREVIEW1, 1, TYPE_LUT16, 3, Some(TypeDecider::LutBToA)),
        item_is(r@[31], TAG_PREVIEW2, 1, TYPE_LUT16, 3, Some(TypeDecider::LutBToA)),
        item_is(r@[32], TAG_PROFILE_DESCRIPTION, 1, TYPE_TEXT_DESCRIPTION, 3, Some(TypeDecider::TextDescription)),
        item_is(r@[33], TAG_PROFILE_SEQUENCE_DESC, 1, TYPE_PROFILE_SEQUENCE_DESC, 1, None::<TypeDecider>),
        item_is(r@[34], TAG_TECHNOLOGY, 1, TYPE_SIGNATURE, 1, None::<TypeDecider>),
        item_is(r@[35], TAG_COLORIMETRIC_INTENT_IMAGE_STATE, 1, TYPE_SIGNATURE, 1, None::<TypeDecider>),
        item_is(r@[36], TAG_PERCEPTUAL_RENDERING_INTENT_GAMUT, 1, TYPE_SIGNATURE, 1, None::<TypeDecider>),
        item_is(r@[37], TAG_SATURATION_RENDERING_INTENT_GAMUT, 1, TYPE_SIGNATURE, 1, None::<TypeDecider>),
        item_is(r@[38], TAG_MEASUREMENT, 1, TYPE_MEASUREMENT, 1, None::<TypeDecider>),
        item_is(r@[39], TAG_PS2_CRD0, 1, TYPE_DATA, 1, None::<TypeDecider>),
        item_is(r@[40], TAG_PS2_CRD1, 1, TYPE_DATA, 1, None::<TypeDecider>),
        item_is(r@[41], TAG_PS2_CRD2, 1, TYPE_DATA, 1, None::<TypeDecider>),
        item_is(r@[42], TAG_PS2_CRD3, 1, TYPE_DATA, 1, None::<TypeDecider>),
        item_is(r@[43], TAG_PS2_CSA, 1, TYPE_DATA, 1, None::<TypeDecider>),
        item_is(r@[44], TAG_PS2_RENDERING_INTENT, 1, TYPE_DATA, 1, None::<TypeDecider>),
        item_is(r@[45], TAG_VIEWING_COND_DESC, 1, TYPE_TEXT_DESCRIPTION, 3, Some(TypeDecider::TextDescription)),
        item_is(r@[46], TAG_UCR_BG, 1, TYPE_UCR_BG, 1, None::<TypeDecider>),
        item_is(r@[47], TAG_CRD_INFO, 1, TYPE_CRD_INFO, 1, None::<TypeDecider>),
        item_is(r@[48], TAG_D_TO_B0, 1, TYPE_MULTI_PROCESS_ELEMENT, 1, None::<TypeDecider>),
        item_is(r@[49], TAG_D_TO_B1, 1, TYPE_MULTI_PROCESS_ELEMENT, 1, None::<TypeDecider>),
        item_is(r@[50], TAG_D_TO_B2, 1, TYPE_MULTI_PROCESS_ELEMENT, 1, None::<TypeDecider>),
        item_is(r@[51], TAG_D_TO_B3, 1, TYPE_MULTI_PROCESS_ELEMENT, 1, None::<TypeDecider>),
        item_is(r@[52], TAG_B_TO_D0, 1, TYPE_MULTI_PROCESS_ELEMENT, 1, None::<TypeDecider>),
        item_is(r@[53], TAG_B_TO_D1, 1, TYPE_MULTI_PROCESS_ELEMENT, 1, None::<TypeDecider>),
        item_is(r@[54], TAG_B_TO_D2, 1, TYPE_MULTI_PROCESS_ELEMENT, 1, None::<TypeDecider>),
        item_is(r@[55], TAG_B_TO_D3, 1, TYPE_MULTI_PROCESS_ELEMENT, 1, None::<TypeDecider>),
        item_is(r@[56], TAG_SCREENING_DESC, 1, TYPE_TEXT_DESCRIPTION, 1, None::<TypeDecider>),
        item_is(r@[57], TAG_VIEWING_CONDITIONS, 1, TYPE_VIEWING_CONDITIONS, 1, None::<TypeDecider>),
        item_is(r@[58], TAG_SCREENING, 1, TYPE_SCREENING, 1, None::<TypeDecider>),
        item_is(r@[59], TAG_VCGT, 1, TYPE_VCGT, 1, None::<TypeDecider>),
        item_is(r@[60], TAG_META, 1, TYPE_DICT, 1, None::<TypeDecider>),
        item_is(r@[61], TAG_PROFILE_SEQUENCE_ID, 1, TYPE_PROFILE_SEQUENCE_ID, 1, None::<TypeDecider>),
        item_is(r@[62], TAG_PROFILE_DESCRIPTION_ML, 9, TYPE_MULTI_LOCALIZED_UNICODE, 1, None::<TypeDecider>),
        item_is(r@[63], TAG_ARGYLL_ARTS, 9, TYPE_S15_FIXED16_ARRAY, 1, None::<TypeDecider>),
{
    let r: Vec<TagListItem> = vec![
    TagListItem {
            sig: Signature(TAG_A_TO_B0),
            desc: TagDescriptor {
                element_count: 1,
                supported_types: vec![Signature(TYPE_LUT16), Signature(TYPE_LUT_A_TO_B), Signature(TYPE_LUT8)],
                decide_type: Some(TypeDecider::LutAToB),
            },
        },
    TagListItem {
            sig: Signature(TAG_A_TO_B1),
            desc: TagDescriptor {
                element_count: 1,
                supported_types: vec![Signature(TYPE_LUT16), Signature(TYPE_LUT_A_TO_B), Signature(TYPE_LUT8)],
                decide_type: Some(TypeDecider::LutAToB),
            },
        },
    TagListItem {
            sig: Signature(TAG_A_TO_B2),
            desc: TagDescriptor {
                element_count: 1,
                supported_types: vec![Signature(TYPE_LUT16), Signature(TYPE_LUT_A_TO_B), Signature(TYPE_LUT8)],
                decide_type: Some(TypeDecider::LutAToB),
            },
        },
    TagListItem {
            sig: Signature(TAG_B_TO_A0),
            desc: TagDescriptor {
                element_count: 1,
                supported_types: vec![Signature(TYPE_LUT16), Signature(TYPE_LUT_B_TO_A), Signature(TYPE_LUT8)],
                decide_type: Some(TypeDecider::LutBToA),
            },
        },
    TagListItem {
            sig: Signature(TAG_B_TO_A1),
            desc: TagDescriptor {
                element_count: 1,
                supported_types: vec![Signature(TYPE_LUT16), Signature(TYPE_LUT_B_TO_A), Signature(TYPE_LUT8)],
                decide_type: Some(TypeDecider::LutBToA),
            },
        },
    TagListItem {
            sig: Signature(TAG_B_TO_A2),
            desc: TagDescriptor {
                element_count: 1,
                supported_types: vec![Signature(TYPE_LUT16), Signature(TYPE_LUT_B_TO_A), Signature(TYPE_LUT8)],
                decide_type: Some(TypeDecider::LutBToA),
            },
        },
    TagListItem {
            sig: Signature(TAG_RED_COLORANT),
            desc: TagDescriptor {
                element_count: 1,
                supported_types: vec![Signature(TYPE_XYZ), Signature(CORBIS_BROKEN_XYZ_TYPE)],
                decide_type: Some(TypeDecider::Xyz),
            },
        },
    TagListItem {
            sig: Signature(TAG_GREEN_COLORANT),
            desc: TagDescriptor {
                element_count: 1,
                supported_types: vec![Signature(TYPE_XYZ), Signature(CORBIS_BROKEN_XYZ_TYPE)],
                decide_type: Some(TypeDecider::Xyz),
            },
        },
    TagListItem {
            sig: Signature(TAG_BLUE_COLORANT),
            desc: TagDescriptor {
                element_count: 1,
                supported_types: vec![Signature(TYPE_XYZ), Signature(CORBIS_BROKEN_XYZ_TYPE)],
                decide_type: Some(TypeDecider::Xyz),
            },
        },
    TagListItem {
            sig: Signature(TAG_RED_TRC),
            desc: TagDescriptor {
                element_count: 1,
                supported_types: vec![Signature(TYPE_CURVE), Signature(TYPE_PARAMETRIC_CURVE), Signature(MONACO_BROKEN_CURVE_TYPE)],
                decide_type: Some(TypeDecider::Curve),
            },
        },
    TagListItem {
            sig: Signature(TAG_GREEN_TRC),
            desc: TagDescriptor {
                element_count: 1,
                supported_types: vec![Signature(TYPE_CURVE), Signature(TYPE_PARAMETRIC_CURVE), Signature(MONACO_BROKEN_CURVE_TYPE)],
                decide_type: Some(TypeDecider::Curve),
            },
        },
    TagListItem {
            sig: Signature(TAG_BLUE_TRC),
            desc: TagDescriptor {
                element_count: 1,
                supported_types: vec![Signature(TYPE_CURVE), Signature(TYPE_PARAMETRIC_CURVE), Signature(MONACO_BROKEN_CURVE_TYPE)],
                decide_type: Some(TypeDecider::Curve),
            },
        },
    TagListItem {
            sig: Signature(TAG_CALIBRATION_DATE_TIME),
            desc: TagDescriptor {
                element_count: 1,
                supported_types: vec![Signature(TYPE_DATE_TIME)],
                decide_type: None,
            },
        },
    TagListItem {
            sig: Signature(TAG_CHAR_TARGET),
            desc: TagDescriptor {
                element_count: 1,
                supported_types: vec![Signature(TYPE_TEXT)],
                decide_type: None,
            },
        },
    TagListItem {
            sig: Signature(TAG_CHROMATIC_ADAPTATION),
            desc: TagDescriptor {
                element_count: 9,
                supported_types: vec![Signature(TYPE_S15_FIXED16_ARRAY)],
                decide_type: None,
            },
        },
    TagListItem {
            sig: Signature(TAG_CHROMATICITY),
            desc: TagDescriptor {
                element_count: 1,
                supported_types: vec![Signature(TYPE_CHROMATICITY)],
                decide_type: None,
            },
        },
    TagListItem {
            sig: Signature(TAG_COLORANT_ORDER),
            desc: TagDescriptor {
                element_count: 1,
                supported_types: vec![Signature(TYPE_COLORANT_ORDER)],
                decide_type: None,
            },
        },
    TagListItem {
            sig: Signature(TAG_COLORANT_TABLE),
            desc: TagDescriptor {
                element_count: 1,
                supported_types: vec![Signature(TYPE_COLORANT_TABLE)],
                decide_type: None,
            },
        },
    TagListItem {
            sig: Signature(TAG_COLORANT_TABLE_OUT),
            desc: TagDescriptor {
                element_count: 1,
                supported_types: vec![Signature(TYPE_COLORANT_TABLE)],
                decide_type: None,
            },
        },
    TagListItem {
            sig: Signature(TAG_COPYRIGHT),
            desc: TagDescriptor {
                element_count: 1,
                supported_types: vec![Signature(TYPE_TEXT), Signature(TYPE_MULTI_LOCALIZED_UNICODE), Signature(TYPE_TEXT_DESCRIPTION)],
                decide_type: Some(TypeDecider::Text),
            },
        },
    TagListItem {
            sig: Signature(TAG_DATE_TIME),
            desc: TagDescriptor {
                element_count: 1,
                supported_types: vec![Signature(TYPE_DATE_TIME)],
                decide_type: None,
            },
        },
    TagListItem {
            sig: Signature(TAG_DEVICE_MFG_DESC),
            desc: TagDescriptor {
                element_count: 1,
                supported_types: vec![Signature(TYPE_TEXT_DESCRIPTION), Signature(TYPE_MULTI_LOCALIZED_UNICODE), Signature(TYPE_TEXT)],
                decide_type: Some(TypeDecider::TextDescription),
            },
        },
    TagListItem {
            sig: Signature(TAG_DEVICE_MODEL_DESC),
            desc: TagDescriptor {
                element_count: 1,
                supported_types: vec![Signature(TYPE_TEXT_DESCRIPTION), Signature(TYPE_MULTI_LOCALIZED_UNICODE), Signature(TYPE_TEXT)],
                decide_type: Some(TypeDecider::TextDescription),
            },
        },
    TagListItem {
            sig: Signature(TAG_GAMUT),
            desc: TagDescriptor {
                element_count: 1,
                supported_types: vec![Signature(TYPE_LUT16), Signature(TYPE_LUT_B_TO_A), Signature(TYPE_LUT8)],
                decide_type: Some(TypeDecider::LutBToA),
            },
        },
    TagListItem {
            sig: Signature(TAG_GRAY_TRC),
            desc: TagDescriptor {
                element_count: 1,
                supported_types: vec![Signature(TYPE_CURVE), Signature(TYPE_PARAMETRIC_CURVE)],
                decide_type: Some(TypeDecider::Curve),
            },
        },
    TagListItem {
            sig: Signature(TAG_LUMINANCE),
            desc: TagDescriptor {
                element_count: 1,
                supported_types: vec![Signature(TYPE_XYZ)],
                decide_type: None,
            },
        },
    TagListItem {
            sig: Signature(TAG_MEDIA_BLACK_POINT),
            desc: TagDescriptor {
                element_count: 1,
                supported_types: vec![Signature(TYPE_XYZ), Signature(CORBIS_BROKEN_XYZ_TYPE)],
                decide_type: None,
            },
        },
    TagListItem {
            sig: Signature(TAG_MEDIA_WHITE_POINT),
            desc: TagDescriptor {
                element_count: 1,
                supported_types: vec![Signature(TYPE_XYZ), Signature(CORBIS_BROKEN_XYZ_TYPE)],
                decide_type: None,
            },
        },
    TagListItem {
            sig: Signature(TAG_NAMED_COLOR2),
            desc: TagDescriptor {
                element_count: 1,
                supported_types: vec![Signature(TYPE_NAMED_COLOR2)],
                decide_type: None,
            },
        },
    TagListItem {
            sig: Signature(TAG_PREVIEW0),
            desc: TagDescriptor {
                element_count: 1,
                supported_types: vec![Signature(TYPE_LUT16), Signature(TYPE_LUT_B_TO_A), Signature(TYPE_LUT8)],
                decide_type: Some(TypeDecider::LutBToA),
            },
        },
    TagListItem {
            sig: Signature(TAG_PREVIEW1),
            desc: TagDescriptor {
                element_count: 1,
                supported_types: vec![Signature(TYPE_LUT16), Signature(TYPE_LUT_B_TO_A), Signature(TYPE_LUT8)],
                decide_type: Some(TypeDecider::LutBToA),
            },
        },
    TagListItem {
            sig: Signature(TAG_PREVIEW2),
            desc: TagDescriptor {
                element_count: 1,
                supported_types: vec![Signature(TYPE_LUT16), Signature(TYPE_LUT_B_TO_A), Signature(TYPE_LUT8)],
                decide_type: Some(TypeDecider::LutBToA),
            },
        },
    TagListItem {
            sig: Signature(TAG_PROFILE_DESCRIPTION),
            desc: TagDescriptor {
                element_count: 1,
                supported_types: vec![Signature(TYPE_TEXT_DESCRIPTION), Signature(TYPE_MULTI_LOCALIZED_UNICODE), Signature(TYPE_TEXT)],
                decide_type: Some(TypeDecider::TextDescription),
            },
        },
    TagListItem {
            sig: Signature(TAG_PROFILE_SEQUENCE_DESC),
            desc: TagDescriptor {
                element_count: 1,
                supported_types: vec![Signature(TYPE_PROFILE_SEQUENCE_DESC)],
                decide_type: None,
            },
        },
    TagListItem {
            sig: Signature(TAG_TECHNOLOGY),
            desc: TagDescriptor {
                element_count: 1,
                supported_types: vec![Signature(TYPE_SIGNATURE)],
                decide_type: None,
            },
        },
    TagListItem {
            sig: Signature(TAG_COLORIMETRIC_INTENT_IMAGE_STATE),
            desc: TagDescriptor {
                element_count: 1,
                supported_types: vec![Signature(TYPE_SIGNATURE)],
                decide_type: None,
            },
        },
    TagListItem {
            sig: Signature(TAG_PERCEPTUAL_RENDERING_INTENT_GAMUT),
            desc: TagDescriptor {
                element_count: 1,
                supported_types: vec![Signature(TYPE_SIGNATURE)],
                decide_type: None,
            },
        },
    TagListItem {
            sig: Signature(TAG_SATURATION_RENDERING_INTENT_GAMUT),
            desc: TagDescriptor {
                element_count: 1,
                supported_types: vec![Signature(TYPE_SIGNATURE)],
                decide_type: None,
            },
        },
    TagListItem {
            sig: Signature(TAG_MEASUREMENT),
            desc: TagDescriptor {
                element_count: 1,
                supported_types: vec![Signature(TYPE_MEASUREMENT)],
                decide_type: None,
            },
        },
    TagListItem {
            sig: Signature(TAG_PS2_CRD0),
            desc: TagDescriptor {
                element_count: 1,
                supported_types: vec![Signature(TYPE_DATA)],
                decide_type: None,
            },
        },
    TagListItem {
            sig: Signature(TAG_PS2_CRD1),
            desc: TagDescriptor {
                element_count: 1,
                supported_types: vec![Signature(TYPE_DATA)],
                decide_type: None,
            },
        },
    TagListItem {
            sig: Signature(TAG_PS2_CRD2),
            desc: TagDescriptor {
                element_count: 1,
                supported_types: vec![Signature(TYPE_DATA)],
                decide_type: None,
            },
        },
    TagListItem {
            sig: Signature(TAG_PS2_CRD3),
            desc: TagDescriptor {
                element_count: 1,
                supported_types: vec![Signature(TYPE_DATA)],
                decide_type: None,
            },
        },
    TagListItem {
            sig: Signature(TAG_PS2_CSA),
            desc: TagDescriptor {
                element_count: 1,
                supported_types: vec![Signature(TYPE_DATA)],
                decide_type: None,
            },
        },
    TagListItem {
            sig: Signature(TAG_PS2_RENDERING_INTENT),
            desc: TagDescriptor {
                element_count: 1,
                supported_types: vec![Signature(TYPE_DATA)],
                decide_type: None,
            },
        },
    TagListItem {
            sig: Signature(TAG_VIEWING_COND_DESC),
            desc: TagDescriptor {
                element_count: 1,
                supported_types: vec![Signature(TYPE_TEXT_DESCRIPTION), Signature(TYPE_MULTI_LOCALIZED_UNICODE), Signature(TYPE_TEXT)],
                decide_type: Some(TypeDecider::TextDescription),
            },
        },
    TagListItem {
            sig: Signature(TAG_UCR_BG),
            desc: TagDescriptor {
                element_count: 1,
                supported_types: vec![Signature(TYPE_UCR_BG)],
                decide_type: None,
            },
        },
    TagListItem {
            sig: Signature(TAG_CRD_INFO),
            desc: TagDescriptor {
                element_count: 1,
                supported_types: vec![Signature(TYPE_CRD_INFO)],
                decide_type: None,
            },
        },
    TagListItem {
            sig: Signature(TAG_D_TO_B0),
            desc: TagDescriptor {
                element_count: 1,
                supported_types: vec![Signature(TYPE_MULTI_PROCESS_ELEMENT)],
                decide_type: None,
            },
        },
    TagListItem {
            sig: Signature(TAG_D_TO_B1),
            desc: TagDescriptor {
                element_count: 1,
                supported_types: vec![Signature(TYPE_MULTI_PROCESS_ELEMENT)],
                decide_type: None,
            },
        },
    TagListItem {
            sig: Signature(TAG_D_TO_B2),
            desc: TagDescriptor {
                element_count: 1,
                supported_types: vec![Signature(TYPE_MULTI_PROCESS_ELEMENT)],
                decide_type: None,
            },
        },
    TagListItem {
            sig: Signature(TAG_D_TO_B3),
            desc: TagDescriptor {
                element_count: 1,
                supported_types: vec![Signature(TYPE_MULTI_PROCESS_ELEMENT)],
                decide_type: None,
            },
        },
    TagListItem {
            sig: Signature(TAG_B_TO_D0),
            desc: TagDescriptor {
                element_count: 1,
                supported_types: vec![Signature(TYPE_MULTI_PROCESS_ELEMENT)],
                decide_type: None,
            },
        },
    TagListItem {
            sig: Signature(TAG_B_TO_D1),
            desc: TagDescriptor {
                element_count: 1,
                supported_types: vec![Signature(TYPE_MULTI_PROCESS_ELEMENT)],
                decide_type: None,
            },
        },
    TagListItem {
            sig: Signature(TAG_B_TO_D2),
            desc: TagDescriptor {
                element_count: 1,
                supported_types: vec![Signature(TYPE_MULTI_PROCESS_ELEMENT)],
                decide_type: None,
            },
        },
    TagListItem {
            sig: Signature(TAG_B_TO_D3),
            desc: TagDescriptor {
                element_count: 1,
                supported_types: vec![Signature(TYPE_MULTI_PROCESS_ELEMENT)],
                decide_type: None,
            },
        },
    TagListItem {
            sig: Signature(TAG_SCREENING_DESC),
            desc: TagDescriptor {
                element_count: 1,
                supported_types: vec![Signature(TYPE_TEXT_DESCRIPTION)],
                decide_type: None,
            },
        },
    TagListItem {
            sig: Signature(TAG_VIEWING_CONDITIONS),
            desc: TagDescriptor {
                element_count: 1,
                supported_types: vec![Signature(TYPE_VIEWING_CONDITIONS)],
                decide_type: None,
            },
        },
    TagListItem {
            sig: Signature(TAG_SCREENING),
            desc: TagDescriptor {
                element_count: 1,
                supported_types: vec![Signature(TYPE_SCREENING)],
                decide_type: None,
            },
        },
    TagListItem {
            sig: Signature(TAG_VCGT),
            desc: TagDescriptor {
                element_count: 1,
                supported_types: vec![Signature(TYPE_VCGT)],
                decide_type: None,
            },
        },
    TagListItem {
            sig: Signature(TAG_META),
            desc: TagDescriptor {
                element_count: 1,
                supported_types: vec![Signature(TYPE_DICT)],
                decide_type: None,
            },
        },
    TagListItem {
            sig: Signature(TAG_PROFILE_SEQUENCE_ID),
            desc: TagDescriptor {
                element_count: 1,
                supported_types: vec![Signature(TYPE_PROFILE_SEQUENCE_ID)],
                decide_type: None,
            },
        },
    TagListItem {
            sig: Signature(TAG_PROFILE_DESCRIPTION_ML),
            desc: TagDescriptor {
                element_count: 9,
                supported_types: vec![Signature(TYPE_MULTI_LOCALIZED_UNICODE)],
                decide_type: None,
            },
        },
    TagListItem {
            sig: Signature(TAG_ARGYLL_ARTS),
            desc: TagDescriptor {
                element_count: 9,
                supported_types: vec![Signature(TYPE_S15_FIXED16_ARRAY)],
                decide_type: None,
            },
        },
    ];
    r
}

} // verus!
