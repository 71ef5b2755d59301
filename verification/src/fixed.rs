//! Exact real-number model used throughout the codec.
//!
//! The wire format carries real quantities as fixed-point words with a
//! 2^16 denominator (signed 15.16, unsigned 16.16) or a 2^8 denominator
//! (unsigned 8.8).  In memory this library keeps such a quantity as a
//! [`Fixed`]: a 64-bit count of 1/65536 steps.  Every wire value of every
//! fixed-point width is representable exactly, so each codec path can be
//! given an exact contract, with no rounding left unstated.

use vstd::prelude::*;
use crate::S15F16;
use crate::U16F16;
use crate::U8F8;

verus! {

/// A real number held exactly as `raw` / 65536.
#[derive(Copy, Clone, Debug, Eq, PartialEq, Structural, Hash)]
pub struct Fixed {
    pub raw: i64,
}

/// Clamping into the signed 15.16 range, the behaviour of a narrowing cast
/// to a 32-bit signed word.
pub open spec fn sat_s15(x: int) -> int {
    if x > 0x7FFF_FFFF {
        0x7FFF_FFFF
    } else if x < -0x8000_0000 {
        -0x8000_0000
    } else {
        x
    }
}

/// Clamping into the unsigned 16.16 range.
pub open spec fn sat_u16f16(x: int) -> int {
    if x > 0xFFFF_FFFF {
        0xFFFF_FFFF
    } else if x < 0 {
        0
    } else {
        x
    }
}

/// The unsigned 8.8 word that a raw step count maps to: the middle 16 bits
/// of the clamped signed 15.16 form.
pub open spec fn u8f8_of_raw(x: int) -> u16 {
    ((((sat_s15(x) as i32) >> 8) & 0xFFFF) as u16)
}

/// Product of two step counts, scaled back down; the fractional part is cut
/// toward zero.
pub open spec fn fixed_mul(a: int, b: int) -> int {
    if a * b >= 0 {
        (a * b) / 65536
    } else {
        -((-(a * b)) / 65536)
    }
}

/// Quotient of two step counts, scaled up; the fractional part is cut
/// toward zero.  Unspecified when `b` is zero.
pub open spec fn fixed_div(a: int, b: int) -> int {
    let n = a * 65536;
    if n >= 0 && b > 0 {
        n / b
    } else if n < 0 && b < 0 {
        (-n) / (-b)
    } else if n < 0 {
        -((-n) / b)
    } else {
        -(n / (-b))
    }
}

/// The range on which products and quotients of two [`Fixed`] values are
/// defined: magnitudes up to 32768, which covers every wire word.
pub open spec fn in_mul_range(f: Fixed) -> bool {
    -0x8000_0000 <= f.raw <= 0x8000_0000
}

impl Fixed {
    /// The number zero.
    pub fn zero() -> (r: Fixed)
        ensures
            r.raw == 0,
    {
        Fixed { raw: 0 }
    }

    /// The number one.
    pub fn one() -> (r: Fixed)
        ensures
            r.raw == 0x1_0000,
    {
        Fixed { raw: 0x1_0000 }
    }

    /// The whole number `i`.
    pub fn from_int(i: i32) -> (r: Fixed)
        ensures
            r.raw == (i as int) * 0x1_0000,
    {
        Fixed { raw: (i as i64) * 0x1_0000 }
    }

    /// The value of a signed 15.16 wire word: exact, every such word is a
    /// whole count of 1/65536 steps.
    pub fn from_s15f16(v: S15F16) -> (r: Fixed)
        ensures
            r.raw == v as int,
    {
        Fixed { raw: v as i64 }
    }

    /// The signed 15.16 wire word for this value, clamped into its range;
    /// the counterpart of taking `floor(v * 65536 + 0.5)` into a 32-bit
    /// word, which on a value already in steps of 1/65536 changes nothing.
    pub fn to_s15f16(self) -> (r: S15F16)
        ensures
            r as int == sat_s15(self.raw as int),
    {
        if self.raw > 0x7FFF_FFFFi64 {
            0x7FFF_FFFFi32
        } else if self.raw < -0x8000_0000i64 {
            i32::MIN
        } else {
            self.raw as i32
        }
    }

    /// The value of an unsigned 16.16 wire word: exact.
    pub fn from_u16f16(v: U16F16) -> (r: Fixed)
        ensures
            r.raw == v as int,
    {
        Fixed { raw: v as i64 }
    }

    /// The unsigned 16.16 wire word for this value, clamped into its range.
    pub fn to_u16f16(self) -> (r: U16F16)
        ensures
            r as int == sat_u16f16(self.raw as int),
    {
        if self.raw > 0xFFFF_FFFFi64 {
            0xFFFF_FFFFu32
        } else if self.raw < 0 {
            0u32
        } else {
            self.raw as u32
        }
    }

    /// The value of an unsigned 8.8 wire word: exact, at 256 steps each.
    pub fn from_u8f8(v: U8F8) -> (r: Fixed)
        ensures
            r.raw == (v as int) * 256,
    {
        Fixed { raw: (v as i64) * 256 }
    }

    /// The unsigned 8.8 wire word for this value: the middle 16 bits of the
    /// clamped signed 15.16 form.
    pub fn to_u8f8(self) -> (r: U8F8)
        ensures
            r == u8f8_of_raw(self.raw as int),
    {
        let fixed32: i32 = self.to_s15f16();
        ((fixed32 >> 8) & 0xFFFF) as u16
    }

    /// Sum; the arguments must not overflow the raw step counter.
    pub fn add(self, other: Fixed) -> (r: Fixed)
        requires
            i64::MIN <= self.raw + other.raw <= i64::MAX,
        ensures
            r.raw == self.raw + other.raw,
    {
        Fixed { raw: self.raw + other.raw }
    }

    /// Difference; the arguments must not overflow the raw step counter.
    pub fn sub(self, other: Fixed) -> (r: Fixed)
        requires
            i64::MIN <= self.raw - other.raw <= i64::MAX,
        ensures
            r.raw == self.raw - other.raw,
    {
        Fixed { raw: self.raw - other.raw }
    }

    /// Negation.
    pub fn neg(self) -> (r: Fixed)
        requires
            self.raw != i64::MIN,
        ensures
            r.raw == -self.raw,
    {
        Fixed { raw: -self.raw }
    }

    /// Magnitude.
    pub fn abs(self) -> (r: Fixed)
        requires
            self.raw != i64::MIN,
        ensures
            r.raw == if self.raw < 0 { -self.raw } else { self.raw as int },
    {
        if self.raw < 0 {
            Fixed { raw: -self.raw }
        } else {
            self
        }
    }

    /// Product.
    pub fn mul(self, other: Fixed) -> (r: Fixed)
        requires
            in_mul_range(self),
            in_mul_range(other),
        ensures
            r.raw == fixed_mul(self.raw as int, other.raw as int),
    {
        proof {
            assert(-0x4000_0000_0000_0000 <= (self.raw as int) * (other.raw as int)
                <= 0x4000_0000_0000_0000) by (nonlinear_arith)
                requires
                    -0x8000_0000 <= self.raw as int <= 0x8000_0000,
                    -0x8000_0000 <= other.raw as int <= 0x8000_0000,
            ;
        }
        let p: i64 = self.raw * other.raw;
        if p >= 0 {
            Fixed { raw: p / 65536 }
        } else {
            Fixed { raw: -((-p) / 65536) }
        }
    }

    /// Quotient.
    pub fn div(self, other: Fixed) -> (r: Fixed)
        requires
            in_mul_range(self),
            other.raw != 0,
            other.raw != i64::MIN,
        ensures
            r.raw == fixed_div(self.raw as int, other.raw as int),
    {
        let n: i64 = self.raw * 65536;
        let b: i64 = other.raw;
        if n >= 0 && b > 0 {
            Fixed { raw: n / b }
        } else if n < 0 && b < 0 {
            Fixed { raw: (-n) / (-b) }
        } else if n < 0 {
            Fixed { raw: -((-n) / b) }
        } else {
            Fixed { raw: -(n / (-b)) }
        }
    }
}

/// Law: a signed 15.16 wire word survives the round trip through the
/// in-memory model unchanged — reading it as a [`Fixed`] and encoding that
/// value again gives the very word back, so the decoded value is within
/// 1/65536 of any real the word stood for.
pub proof fn lemma_s15f16_round_trip(v: S15F16)
    ensures
        sat_s15(v as int) == v as int,
{
}

/// Law: an unsigned 16.16 wire word survives the round trip through the
/// in-memory model unchanged.
pub proof fn lemma_u16f16_round_trip(v: U16F16)
    ensures
        sat_u16f16(v as int) == v as int,
{
}

/// Law: an unsigned 8.8 wire word survives the round trip through the
/// in-memory model unchanged, so the decoded value is within 1/256 of any
/// real the word stood for.
pub proof fn lemma_u8f8_round_trip(v: U8F8)
    ensures
        u8f8_of_raw((v as int) * 256) == v,
{
    let x: int = (v as int) * 256;
    assert(sat_s15(x) == x);
    let w: i32 = x as i32;
    assert(w == vstd::prelude::mul(v as i32, 256));
    assert(((vstd::prelude::mul(v as i32, 256) >> 8) & 0xFFFF) == v as i32) by (bit_vector);
    assert(((w >> 8) & 0xFFFF) as u16 == v);
}

} // verus!

verus! {

/// Law: a product of two values in the multiplication range stays within
/// 2^46 raw steps, so sums of a few products never overflow the counter.
pub proof fn lemma_fixed_mul_bound(a: int, b: int)
    requires
        -0x8000_0000 <= a <= 0x8000_0000,
        -0x8000_0000 <= b <= 0x8000_0000,
    ensures
        -0x4000_0000_0000 <= fixed_mul(a, b) <= 0x4000_0000_0000,
{
    assert(-0x4000_0000_0000_0000 <= a * b <= 0x4000_0000_0000_0000) by (nonlinear_arith)
        requires
            -0x8000_0000 <= a <= 0x8000_0000,
            -0x8000_0000 <= b <= 0x8000_0000,
    ;
    if a * b >= 0 {
        assert((a * b) / 65536 <= 0x4000_0000_0000_0000int / 65536);
        assert((a * b) / 65536 >= 0);
    } else {
        assert((-(a * b)) / 65536 <= 0x4000_0000_0000_0000int / 65536);
        assert((-(a * b)) / 65536 >= 0);
    }
}

} // verus!
