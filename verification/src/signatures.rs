//! The registered 4-byte identifiers the codec knows, as the 32-bit words
//! their big-endian characters form.  Tag identifiers name a tag's purpose;
//! type identifiers name a tag body's wire encoding.

use vstd::prelude::*;

verus! {

/// `acsp`
pub const MAGIC_NUMBER: u32 = 0x61637370;

/// `lcms`
pub const LCMS_SIGNATURE: u32 = 0x6C636D73;

/// `acpp`
pub const PLUGIN_MAGIC: u32 = 0x61637070;

/// `chrm`
pub const TYPE_CHROMATICITY: u32 = 0x6368726D;

/// `clro`
pub const TYPE_COLORANT_ORDER: u32 = 0x636C726F;

/// `sf32`
pub const TYPE_S15_FIXED16_ARRAY: u32 = 0x73663332;

/// `uf32`
pub const TYPE_U16_FIXED16_ARRAY: u32 = 0x75663332;

/// `text`
pub const TYPE_TEXT: u32 = 0x74657874;

/// `sig `
pub const TYPE_SIGNATURE: u32 = 0x73696720;

/// `data`
pub const TYPE_DATA: u32 = 0x64617461;

/// `XYZ `
pub const TYPE_XYZ: u32 = 0x58595A20;

/// `curv`
pub const TYPE_CURVE: u32 = 0x63757276;

/// `para`
pub const TYPE_PARAMETRIC_CURVE: u32 = 0x70617261;

/// `mft1`
pub const TYPE_LUT8: u32 = 0x6D667431;

/// `mft2`
pub const TYPE_LUT16: u32 = 0x6D667432;

/// `mAB `
pub const TYPE_LUT_A_TO_B: u32 = 0x6D414220;

/// `mBA `
pub const TYPE_LUT_B_TO_A: u32 = 0x6D424120;

/// `mluc`
pub const TYPE_MULTI_LOCALIZED_UNICODE: u32 = 0x6D6C7563;

/// `desc`
pub const TYPE_TEXT_DESCRIPTION: u32 = 0x64657363;

/// `dtim`
pub const TYPE_DATE_TIME: u32 = 0x6474696D;

/// `ncl2`
pub const TYPE_NAMED_COLOR2: u32 = 0x6E636C32;

/// `clrt`
pub const TYPE_COLORANT_TABLE: u32 = 0x636C7274;

/// `pseq`
pub const TYPE_PROFILE_SEQUENCE_DESC: u32 = 0x70736571;

/// `meas`
pub const TYPE_MEASUREMENT: u32 = 0x6D656173;

/// `bfd `
pub const TYPE_UCR_BG: u32 = 0x62666420;

/// `crdi`
pub const TYPE_CRD_INFO: u32 = 0x63726469;

/// `mpet`
pub const TYPE_MULTI_PROCESS_ELEMENT: u32 = 0x6D706574;

/// `view`
pub const TYPE_VIEWING_CONDITIONS: u32 = 0x76696577;

/// `scrn`
pub const TYPE_SCREENING: u32 = 0x7363726E;

/// `vcgt`
pub const TYPE_VCGT: u32 = 0x76636774;

/// `dict`
pub const TYPE_DICT: u32 = 0x64696374;

/// `psid`
pub const TYPE_PROFILE_SEQUENCE_ID: u32 = 0x70736964;

/// `A2B0`
pub const TAG_A_TO_B0: u32 = 0x41324230;

/// `A2B1`
pub const TAG_A_TO_B1: u32 = 0x41324231;

/// `A2B2`
pub const TAG_A_TO_B2: u32 = 0x41324232;

/// `B2A0`
pub const TAG_B_TO_A0: u32 = 0x42324130;

/// `B2A1`
pub const TAG_B_TO_A1: u32 = 0x42324131;

/// `B2A2`
pub const TAG_B_TO_A2: u32 = 0x42324132;

/// `rXYZ`
pub const TAG_RED_COLORANT: u32 = 0x7258595A;

/// `gXYZ`
pub const TAG_GREEN_COLORANT: u32 = 0x6758595A;

/// `bXYZ`
pub const TAG_BLUE_COLORANT: u32 = 0x6258595A;

/// `rTRC`
pub const TAG_RED_TRC: u32 = 0x72545243;

/// `gTRC`
pub const TAG_GREEN_TRC: u32 = 0x67545243;

/// `bTRC`
pub const TAG_BLUE_TRC: u32 = 0x62545243;

/// `calt`
pub const TAG_CALIBRATION_DATE_TIME: u32 = 0x63616C74;

/// `targ`
pub const TAG_CHAR_TARGET: u32 = 0x74617267;

/// `chad`
pub const TAG_CHROMATIC_ADAPTATION: u32 = 0x63686164;

/// `chrm`
pub const TAG_CHROMATICITY: u32 = 0x6368726D;

/// `clro`
pub const TAG_COLORANT_ORDER: u32 = 0x636C726F;

/// `clrt`
pub const TAG_COLORANT_TABLE: u32 = 0x636C7274;

/// `clot`
pub const TAG_COLORANT_TABLE_OUT: u32 = 0x636C6F74;

/// `cprt`
pub const TAG_COPYRIGHT: u32 = 0x63707274;

/// `dtim`
pub const TAG_DATE_TIME: u32 = 0x6474696D;

/// `dmnd`
pub const TAG_DEVICE_MFG_DESC: u32 = 0x646D6E64;

/// `dmdd`
pub const TAG_DEVICE_MODEL_DESC: u32 = 0x646D6464;

/// `gamt`
pub const TAG_GAMUT: u32 = 0x67616D74;

/// `kTRC`
pub const TAG_GRAY_TRC: u32 = 0x6B545243;

/// `lumi`
pub const TAG_LUMINANCE: u32 = 0x6C756D69;

/// `bkpt`
pub const TAG_MEDIA_BLACK_POINT: u32 = 0x626B7074;

/// `wtpt`
pub const TAG_MEDIA_WHITE_POINT: u32 = 0x77747074;

/// `ncl2`
pub const TAG_NAMED_COLOR2: u32 = 0x6E636C32;

/// `pre0`
pub const TAG_PREVIEW0: u32 = 0x70726530;

/// `pre1`
pub const TAG_PREVIEW1: u32 = 0x70726531;

/// `pre2`
pub const TAG_PREVIEW2: u32 = 0x70726532;

/// `desc`
pub const TAG_PROFILE_DESCRIPTION: u32 = 0x64657363;

/// `pseq`
pub const TAG_PROFILE_SEQUENCE_DESC: u32 = 0x70736571;

/// `tech`
pub const TAG_TECHNOLOGY: u32 = 0x74656368;

/// `ciis`
pub const TAG_COLORIMETRIC_INTENT_IMAGE_STATE: u32 = 0x63696973;

/// `rig0`
pub const TAG_PERCEPTUAL_RENDERING_INTENT_GAMUT: u32 = 0x72696730;

/// `rig2`
pub const TAG_SATURATION_RENDERING_INTENT_GAMUT: u32 = 0x72696732;

/// `meas`
pub const TAG_MEASUREMENT: u32 = 0x6D656173;

/// `psd0`
pub const TAG_PS2_CRD0: u32 = 0x70736430;

/// `psd1`
pub const TAG_PS2_CRD1: u32 = 0x70736431;

/// `psd2`
pub const TAG_PS2_CRD2: u32 = 0x70736432;

/// `psd3`
pub const TAG_PS2_CRD3: u32 = 0x70736433;

/// `ps2s`
pub const TAG_PS2_CSA: u32 = 0x70733273;

/// `ps2i`
pub const TAG_PS2_RENDERING_INTENT: u32 = 0x70733269;

/// `vued`
pub const TAG_VIEWING_COND_DESC: u32 = 0x76756564;

/// `bfd `
pub const TAG_UCR_BG: u32 = 0x62666420;

/// `crdi`
pub const TAG_CRD_INFO: u32 = 0x63726469;

/// `D2B0`
pub const TAG_D_TO_B0: u32 = 0x44324230;

/// `D2B1`
pub const TAG_D_TO_B1: u32 = 0x44324231;

/// `D2B2`
pub const TAG_D_TO_B2: u32 = 0x44324232;

/// `D2B3`
pub const TAG_D_TO_B3: u32 = 0x44324233;

/// `B2D0`
pub const TAG_B_TO_D0: u32 = 0x42324430;

/// `B2D1`
pub const TAG_B_TO_D1: u32 = 0x42324431;

/// `B2D2`
pub const TAG_B_TO_D2: u32 = 0x42324432;

/// `B2D3`
pub const TAG_B_TO_D3: u32 = 0x42324433;

/// `scrd`
pub const TAG_SCREENING_DESC: u32 = 0x73637264;

/// `view`
pub const TAG_VIEWING_CONDITIONS: u32 = 0x76696577;

/// `scrn`
pub const TAG_SCREENING: u32 = 0x7363726E;

/// `vcgt`
pub const TAG_VCGT: u32 = 0x76636774;

/// `meta`
pub const TAG_META: u32 = 0x6D657461;

/// `psid`
pub const TAG_PROFILE_SEQUENCE_ID: u32 = 0x70736964;

/// `dscm`
pub const TAG_PROFILE_DESCRIPTION_ML: u32 = 0x6473636D;

/// `arts`
pub const TAG_ARGYLL_ARTS: u32 = 0x61727473;

/// A vendor type identifier seen in the wild on XYZ tag bodies whose
/// encoding is byte-identical to the XYZ type; it must decode the same way.
pub const CORBIS_BROKEN_XYZ_TYPE: u32 = 0x17A505B8;

/// A vendor type identifier seen in the wild on curve tag bodies.
pub const MONACO_BROKEN_CURVE_TYPE: u32 = 0x9478EE00;

} // verus!
