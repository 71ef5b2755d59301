//! The packed pixel-layout word: one 32-bit value whose bit fields say how
//! pixels are laid out, including which color space the samples belong to
//! in bits 16 to 20.

use vstd::prelude::*;
use crate::ColorSpace;

verus! {

/// The packed pixel-layout word.
#[derive(Copy, Clone, Debug, Eq, PartialEq, Structural, Hash)]
pub struct PixelType(pub u32);

/// The number a color space occupies in the layout word's field.
pub open spec fn color_space_code(cs: ColorSpace) -> u32 {
    match cs {
        ColorSpace::Any => 0,
        ColorSpace::Gray => 3,
        ColorSpace::Rgb => 4,
        ColorSpace::Cmy => 5,
        ColorSpace::Cmyk => 6,
        ColorSpace::YCbCr => 7,
        ColorSpace::Yuv => 8,
        ColorSpace::Xyz => 9,
        ColorSpace::Lab => 10,
        ColorSpace::Yuvk => 11,
        ColorSpace::Hsv => 12,
        ColorSpace::Hls => 13,
        ColorSpace::Yxy => 14,
        ColorSpace::Mch1 => 15,
        ColorSpace::Mch2 => 16,
        ColorSpace::Mch3 => 17,
        ColorSpace::Mch4 => 18,
        ColorSpace::Mch5 => 19,
        ColorSpace::Mch6 => 20,
        ColorSpace::Mch7 => 21,
        ColorSpace::Mch8 => 22,
        ColorSpace::Mch9 => 23,
        ColorSpace::Mch10 => 24,
        ColorSpace::Mch11 => 25,
        ColorSpace::Mch12 => 26,
        ColorSpace::Mch13 => 27,
        ColorSpace::Mch14 => 28,
        ColorSpace::Mch15 => 29,
        ColorSpace::LabV2 => 30,
    }
}

/// The color space a field number names; numbers naming none read as
/// [`ColorSpace::Any`].
pub open spec fn color_space_of(v: u32) -> ColorSpace {
    if v == 3 {
        ColorSpace::Gray
    } else if v == 4 {
        ColorSpace::Rgb
    } else if v == 5 {
        ColorSpace::Cmy
    } else if v == 6 {
        ColorSpace::Cmyk
    } else if v == 7 {
        ColorSpace::YCbCr
    } else if v == 8 {
        ColorSpace::Yuv
    } else if v == 9 {
        ColorSpace::Xyz
    } else if v == 10 {
        ColorSpace::Lab
    } else if v == 11 {
        ColorSpace::Yuvk
    } else if v == 12 {
        ColorSpace::Hsv
    } else if v == 13 {
        ColorSpace::Hls
    } else if v == 14 {
        ColorSpace::Yxy
    } else if v == 15 {
        ColorSpace::Mch1
    } else if v == 16 {
        ColorSpace::Mch2
    } else if v == 17 {
        ColorSpace::Mch3
    } else if v == 18 {
        ColorSpace::Mch4
    } else if v == 19 {
        ColorSpace::Mch5
    } else if v == 20 {
        ColorSpace::Mch6
    } else if v == 21 {
        ColorSpace::Mch7
    } else if v == 22 {
        ColorSpace::Mch8
    } else if v == 23 {
        ColorSpace::Mch9
    } else if v == 24 {
        ColorSpace::Mch10
    } else if v == 25 {
        ColorSpace::Mch11
    } else if v == 26 {
        ColorSpace::Mch12
    } else if v == 27 {
        ColorSpace::Mch13
    } else if v == 28 {
        ColorSpace::Mch14
    } else if v == 29 {
        ColorSpace::Mch15
    } else if v == 30 {
        ColorSpace::LabV2
    } else {
        ColorSpace::Any
    }
}

impl ColorSpace {
    /// The number this color space occupies in a layout word.
    pub fn code(self) -> (r: u32)
        ensures
            r == color_space_code(self),
    {
        match self {
            ColorSpace::Any => 0,
            ColorSpace::Gray => 3,
            ColorSpace::Rgb => 4,
            ColorSpace::Cmy => 5,
            ColorSpace::Cmyk => 6,
            ColorSpace::YCbCr => 7,
            ColorSpace::Yuv => 8,
            ColorSpace::Xyz => 9,
            ColorSpace::Lab => 10,
            ColorSpace::Yuvk => 11,
            ColorSpace::Hsv => 12,
            ColorSpace::Hls => 13,
            ColorSpace::Yxy => 14,
            ColorSpace::Mch1 => 15,
            ColorSpace::Mch2 => 16,
            ColorSpace::Mch3 => 17,
            ColorSpace::Mch4 => 18,
            ColorSpace::Mch5 => 19,
            ColorSpace::Mch6 => 20,
            ColorSpace::Mch7 => 21,
            ColorSpace::Mch8 => 22,
            ColorSpace::Mch9 => 23,
            ColorSpace::Mch10 => 24,
            ColorSpace::Mch11 => 25,
            ColorSpace::Mch12 => 26,
            ColorSpace::Mch13 => 27,
            ColorSpace::Mch14 => 28,
            ColorSpace::Mch15 => 29,
            ColorSpace::LabV2 => 30,
        }
    }
}

impl PixelType {
    /// Stores a color space into bits 16 to 20 of the layout word,
    /// leaving every other field alone.
    pub fn set_color_space(&mut self, cs: ColorSpace)
        ensures
            final(self).0 == (old(self).0 & 0xFFE0_FFFF) | ((color_space_code(cs) & 0x1F)
                << 16),
    {
        self.0 = (self.0 & 0xFFE0_FFFF) | ((cs.code() & 0x1F) << 16);
    }

    /// The color space stored in bits 16 to 20 of the layout word.
    pub fn color_space(self) -> (r: ColorSpace)
        ensures
            r == color_space_of((self.0 >> 16) & 0x1F),
    {
        let v: u32 = (self.0 >> 16) & 0x1F;
        if v == 3 {
            ColorSpace::Gray
        } else if v == 4 {
            ColorSpace::Rgb
        } else if v == 5 {
            ColorSpace::Cmy
        } else if v == 6 {
            ColorSpace::Cmyk
        } else if v == 7 {
            ColorSpace::YCbCr
        } else if v == 8 {
            ColorSpace::Yuv
        } else if v == 9 {
            ColorSpace::Xyz
        } else if v == 10 {
            ColorSpace::Lab
        } else if v == 11 {
            ColorSpace::Yuvk
        } else if v == 12 {
            ColorSpace::Hsv
        } else if v == 13 {
            ColorSpace::Hls
        } else if v == 14 {
            ColorSpace::Yxy
        } else if v == 15 {
            ColorSpace::Mch1
        } else if v == 16 {
            ColorSpace::Mch2
        } else if v == 17 {
            ColorSpace::Mch3
        } else if v == 18 {
            ColorSpace::Mch4
        } else if v == 19 {
            ColorSpace::Mch5
        } else if v == 20 {
            ColorSpace::Mch6
        } else if v == 21 {
            ColorSpace::Mch7
        } else if v == 22 {
            ColorSpace::Mch8
        } else if v == 23 {
            ColorSpace::Mch9
        } else if v == 24 {
            ColorSpace::Mch10
        } else if v == 25 {
            ColorSpace::Mch11
        } else if v == 26 {
            ColorSpace::Mch12
        } else if v == 27 {
            ColorSpace::Mch13
        } else if v == 28 {
            ColorSpace::Mch14
        } else if v == 29 {
            ColorSpace::Mch15
        } else if v == 30 {
            ColorSpace::LabV2
        } else {
            ColorSpace::Any
        }
    }
}

/// Law: the color-space field round-trips — whatever the rest of the
/// layout word holds, storing a color space and reading the field back
/// gives that color space.
pub proof fn lemma_color_space_round_trip(p: PixelType, cs: ColorSpace)
    ensures
        color_space_of(
            ((((p.0 & 0xFFE0_FFFF) | ((color_space_code(cs) & 0x1F) << 16)) as u32) >> 16)
                & 0x1F,
        ) == cs,
{
    let c = color_space_code(cs);
    let w: u32 = p.0;
    assert(c <= 30);
    assert(((((w & 0xFFE0_FFFF) | ((c & 0x1F) << 16)) as u32) >> 16) & 0x1F == c & 0x1F)
        by (bit_vector)
        requires
            c <= 30,
    ;
    assert(c & 0x1F == c) by (bit_vector)
        requires
            c <= 30,
    ;
}

} // verus!
