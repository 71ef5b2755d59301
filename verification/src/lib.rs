//! Tag-level binary codec and extensible type registry at the core of a
//! color-profile management library.
//!
//! Profiles are self-describing binary containers: a fixed header followed by
//! a directory of tagged entries, each carrying a 4-byte type signature whose
//! payload encoding depends on that signature and on the profile's format
//! version.  This crate holds the fixed-point numeric codec, the primitive
//! big-endian binary layer, the tag-type handler registry, the tag descriptor
//! registry, and the plugin/context subsystem that makes the registries
//! mutable per processing context.
//!
//! All multi-byte quantities are big-endian on the wire.  Real-valued
//! quantities travel as fixed-point words and are modelled in memory by
//! [`fixed::Fixed`], an exact scaled integer, so every codec path is fully
//! verified.

use vstd::prelude::*;

pub mod endian;
pub mod error;
pub mod fixed;
pub mod mat3;
pub mod mlu;
pub mod named_color_list;
pub mod pixel_type;
pub mod signature;
pub mod signatures;
pub mod stream;
pub mod tag_base;
pub mod tags;
pub mod types;
pub mod vec3;
pub mod context;

pub use context::Context;
pub use mat3::Mat3;
pub use pixel_type::PixelType;
pub use signature::Signature;
pub use types::ICCData;
pub use vec3::Vec3;

verus! {

/// Library version in thousandths of the major number (2.12 is 2120), the
/// value a plugin's `expected_version` is held against.
pub const LCMS_VERSION: u32 = 2120;

/// An unsigned 8.8 fixed-point word as it stands on the wire.
pub type U8F8 = u16;

/// A signed 15.16 fixed-point word as it stands on the wire.
pub type S15F16 = i32;

/// An unsigned 16.16 fixed-point word as it stands on the wire.
pub type U16F16 = u32;

/// Most device channels any colorant-order or named-color record may carry.
pub const MAX_CHANNELS: u32 = 16;

/// Longest stored name in a named-color record, in bytes.
pub const MAX_PATH: usize = 256;

/// ICC date and time, six big-endian 16-bit fields.
#[derive(Copy, Clone, Debug, Eq, PartialEq, Structural)]
pub struct DateTimeNumber {
    pub year: u16,
    pub month: u16,
    pub day: u16,
    pub hours: u16,
    pub minutes: u16,
    pub seconds: u16,
}

/// An XYZ triple as encoded in a profile header: three signed 15.16 words.
#[derive(Copy, Clone, Debug, Eq, PartialEq, Structural)]
pub struct EncodedXYZNumber {
    pub x: S15F16,
    pub y: S15F16,
    pub z: S15F16,
}

/// Profile header fields, already lifted out of their wire order.
#[derive(Clone, Debug, Eq, PartialEq)]
pub struct ICCHeader {
    /// Profile size in bytes
    pub size: u32,
    /// CMM for this profile
    pub cmm_id: Signature,
    /// Format version number
    pub version: u32,
    /// Type of profile
    pub device_class: Signature,
    /// Color space of data
    pub color_space: Signature,
    /// PCS, XYZ or LAB only
    pub pcs: Signature,
    /// Date profile was created
    pub date: DateTimeNumber,
    /// Magic number to identify an ICC profile
    pub magic: Signature,
    /// Primary platform
    pub platform: Signature,
    /// Various bit settings
    pub flags: u32,
    /// Device manufacturer
    pub manufacturer: Signature,
    /// Device model number
    pub model: u32,
    /// Device attributes
    pub attributes: u64,
    /// Rendering intent
    pub rendering_intent: u32,
    /// Profile illuminant
    pub illuminant: EncodedXYZNumber,
    /// Profile creator
    pub creator: Signature,
    /// Profile ID as computed by the MD5 algorithm
    pub profile_id: [u8; 16],
    /// Reserved for future use
    pub reserved: [u8; 28],
}

/// One entry of a profile's tag directory.
#[derive(Copy, Clone, Debug, Eq, PartialEq, Structural)]
pub struct TagEntry {
    /// The tag signature
    pub signature: Signature,
    /// Start of tag
    pub offset: u32,
    /// Size in bytes
    pub size: u32,
}

/// The color space a pixel layout refers to.
#[derive(Copy, Clone, Debug, Eq, PartialEq, Structural)]
pub enum ColorSpace {
    Any,
    Gray,
    Rgb,
    Cmy,
    Cmyk,
    YCbCr,
    Yuv,
    Xyz,
    Lab,
    Yuvk,
    Hsv,
    Hls,
    Yxy,
    Mch1,
    Mch2,
    Mch3,
    Mch4,
    Mch5,
    Mch6,
    Mch7,
    Mch8,
    Mch9,
    Mch10,
    Mch11,
    Mch12,
    Mch13,
    Mch14,
    Mch15,
    LabV2,
}

/// Line and plane strides of a pixel buffer handed to a transform.
#[derive(Copy, Clone, Debug, Eq, PartialEq, Structural)]
pub struct Stride {
    pub bytes_per_line_in: u32,
    pub bytes_per_line_out: u32,
    pub bytes_per_plane_in: u32,
    pub bytes_per_plane_out: u32,
}

} // verus!
