//! Three-component vectors over the exact fixed-point scalar, as the
//! chromatic-adaptation math downstream uses them.

use vstd::prelude::*;
use crate::fixed::Fixed;
use crate::fixed::fixed_mul;
use crate::fixed::in_mul_range;
use crate::fixed::lemma_fixed_mul_bound;

verus! {

/// A vector of three exact fixed-point components.
#[derive(Copy, Clone, Debug, Eq, PartialEq, Structural, Hash)]
pub struct Vec3 {
    pub x: Fixed,
    pub y: Fixed,
    pub z: Fixed,
}

/// Whether every component is in the range products are defined on.
pub open spec fn vec3_in_mul_range(v: Vec3) -> bool {
    &&& in_mul_range(v.x)
    &&& in_mul_range(v.y)
    &&& in_mul_range(v.z)
}

/// What the cross product's first component is, and so on cyclically.
pub open spec fn cross_term(a1: int, b2: int, a2: int, b1: int) -> int {
    fixed_mul(a1, b2) - fixed_mul(b1, a2)
}

impl Vec3 {
    /// A vector from its components.
    pub fn new(x: Fixed, y: Fixed, z: Fixed) -> (r: Self)
        ensures
            r == (Vec3 { x, y, z }),
    {
        Vec3 { x, y, z }
    }

    /// Componentwise difference.
    pub fn minus(&self, b: &Self) -> (r: Self)
        requires
            i64::MIN <= self.x.raw - b.x.raw <= i64::MAX,
            i64::MIN <= self.y.raw - b.y.raw <= i64::MAX,
            i64::MIN <= self.z.raw - b.z.raw <= i64::MAX,
        ensures
            r.x.raw == self.x.raw - b.x.raw,
            r.y.raw == self.y.raw - b.y.raw,
            r.z.raw == self.z.raw - b.z.raw,
    {
        Vec3 { x: self.x.sub(b.x), y: self.y.sub(b.y), z: self.z.sub(b.z) }
    }

    /// Cross product.
    pub fn cross(&self, v: &Self) -> (r: Self)
        requires
            vec3_in_mul_range(*self),
            vec3_in_mul_range(*v),
        ensures
            r.x.raw == cross_term(self.y.raw as int, v.z.raw as int, self.z.raw as int, v.y.raw as int),
            r.y.raw == cross_term(self.z.raw as int, v.x.raw as int, self.x.raw as int, v.z.raw as int),
            r.z.raw == cross_term(self.x.raw as int, v.y.raw as int, self.y.raw as int, v.x.raw as int),
    {
        proof {
            lemma_fixed_mul_bound(self.y.raw as int, v.z.raw as int);
            lemma_fixed_mul_bound(v.y.raw as int, self.z.raw as int);
            lemma_fixed_mul_bound(self.z.raw as int, v.x.raw as int);
            lemma_fixed_mul_bound(v.z.raw as int, self.x.raw as int);
            lemma_fixed_mul_bound(self.x.raw as int, v.y.raw as int);
            lemma_fixed_mul_bound(v.x.raw as int, self.y.raw as int);
        }
        Vec3 {
            x: self.y.mul(v.z).sub(v.y.mul(self.z)),
            y: self.z.mul(v.x).sub(v.z.mul(self.x)),
            z: self.x.mul(v.y).sub(v.x.mul(self.y)),
        }
    }

    /// Dot product.
    pub fn dot(&self, v: &Self) -> (r: Fixed)
        requires
            vec3_in_mul_range(*self),
            vec3_in_mul_range(*v),
        ensures
            r.raw == fixed_mul(self.x.raw as int, v.x.raw as int) + fixed_mul(
                self.y.raw as int,
                v.y.raw as int,
            ) + fixed_mul(self.z.raw as int, v.z.raw as int),
    {
        proof {
            lemma_fixed_mul_bound(self.x.raw as int, v.x.raw as int);
            lemma_fixed_mul_bound(self.y.raw as int, v.y.raw as int);
            lemma_fixed_mul_bound(self.z.raw as int, v.z.raw as int);
        }
        self.x.mul(v.x).add(self.y.mul(v.y)).add(self.z.mul(v.z))
    }

    /// The components as an array.
    pub fn as_array(&self) -> (r: [Fixed; 3])
        ensures
            r@ == seq![self.x, self.y, self.z],
    {
        let r = [self.x, self.y, self.z];
        proof {
            assert(r@ =~= seq![self.x, self.y, self.z]);
        }
        r
    }

    /// A vector from an array of components.
    pub fn from_array(array: [Fixed; 3]) -> (r: Self)
        ensures
            r.x == array[0],
            r.y == array[1],
            r.z == array[2],
    {
        Vec3 { x: array[0], y: array[1], z: array[2] }
    }

    /// Componentwise sum.
    pub fn add(self, other: Self) -> (r: Self)
        requires
            i64::MIN <= self.x.raw + other.x.raw <= i64::MAX,
            i64::MIN <= self.y.raw + other.y.raw <= i64::MAX,
            i64::MIN <= self.z.raw + other.z.raw <= i64::MAX,
        ensures
            r.x.raw == self.x.raw + other.x.raw,
            r.y.raw == self.y.raw + other.y.raw,
            r.z.raw == self.z.raw + other.z.raw,
    {
        Vec3 { x: self.x.add(other.x), y: self.y.add(other.y), z: self.z.add(other.z) }
    }

    /// Componentwise sum, stored in place.
    pub fn add_assign(&mut self, other: Self)
        requires
            i64::MIN <= old(self).x.raw + other.x.raw <= i64::MAX,
            i64::MIN <= old(self).y.raw + other.y.raw <= i64::MAX,
            i64::MIN <= old(self).z.raw + other.z.raw <= i64::MAX,
        ensures
            final(self).x.raw == old(self).x.raw + other.x.raw,
            final(self).y.raw == old(self).y.raw + other.y.raw,
            final(self).z.raw == old(self).z.raw + other.z.raw,
    {
        self.x = self.x.add(other.x);
        self.y = self.y.add(other.y);
        self.z = self.z.add(other.z);
    }

    /// Componentwise difference, by value.
    pub fn sub(self, other: Self) -> (r: Self)
        requires
            i64::MIN <= self.x.raw - other.x.raw <= i64::MAX,
            i64::MIN <= self.y.raw - other.y.raw <= i64::MAX,
            i64::MIN <= self.z.raw - other.z.raw <= i64::MAX,
        ensures
            r.x.raw == self.x.raw - other.x.raw,
            r.y.raw == self.y.raw - other.y.raw,
            r.z.raw == self.z.raw - other.z.raw,
    {
        self.minus(&other)
    }

    /// Componentwise difference, stored in place.
    pub fn sub_assign(&mut self, other: Self)
        requires
            i64::MIN <= old(self).x.raw - other.x.raw <= i64::MAX,
            i64::MIN <= old(self).y.raw - other.y.raw <= i64::MAX,
            i64::MIN <= old(self).z.raw - other.z.raw <= i64::MAX,
        ensures
            final(self).x.raw == old(self).x.raw - other.x.raw,
            final(self).y.raw == old(self).y.raw - other.y.raw,
            final(self).z.raw == old(self).z.raw - other.z.raw,
    {
        self.x = self.x.sub(other.x);
        self.y = self.y.sub(other.y);
        self.z = self.z.sub(other.z);
    }

    /// The cross product, under the multiplication sign.
    pub fn mul(self, other: Self) -> (r: Self)
        requires
            vec3_in_mul_range(self),
            vec3_in_mul_range(other),
        ensures
            r.x.raw == cross_term(self.y.raw as int, other.z.raw as int, self.z.raw as int, other.y.raw as int),
            r.y.raw == cross_term(self.z.raw as int, other.x.raw as int, self.x.raw as int, other.z.raw as int),
            r.z.raw == cross_term(self.x.raw as int, other.y.raw as int, self.y.raw as int, other.x.raw as int),
    {
        self.cross(&other)
    }

    /// The cross product, stored in place.
    pub fn mul_assign(&mut self, other: Self)
        requires
            vec3_in_mul_range(*old(self)),
            vec3_in_mul_range(other),
        ensures
            final(self).x.raw == cross_term(old(self).y.raw as int, other.z.raw as int, old(self).z.raw as int, other.y.raw as int),
            final(self).y.raw == cross_term(old(self).z.raw as int, other.x.raw as int, old(self).x.raw as int, other.z.raw as int),
            final(self).z.raw == cross_term(old(self).x.raw as int, other.y.raw as int, old(self).y.raw as int, other.x.raw as int),
    {
        let result = self.cross(&other);
        self.x = result.x;
        self.y = result.y;
        self.z = result.z;
    }

    /// Componentwise negation.
    pub fn neg(self) -> (r: Self)
        requires
            self.x.raw != i64::MIN,
            self.y.raw != i64::MIN,
            self.z.raw != i64::MIN,
        ensures
            r.x.raw == -self.x.raw,
            r.y.raw == -self.y.raw,
            r.z.raw == -self.z.raw,
    {
        Vec3 { x: self.x.neg(), y: self.y.neg(), z: self.z.neg() }
    }
}

} // verus!

verus! {

/// The character of one decimal digit.
pub open spec fn digit_char(d: int) -> char {
    (((0x30 + d) as u8) as char)
}

/// The decimal digits of a whole number, most significant first.
pub open spec fn dec_digits(n: int) -> Seq<char>
    decreases n,
{
    if n < 10 {
        seq![digit_char(n)]
    } else {
        dec_digits(n / 10).push(digit_char(n % 10))
    }
}

/// The decimal expansion of a fractional part held as a count of 1/65536
/// steps: each round brings the next digit out, and the expansion stops
/// when nothing remains or the fuel runs out.  Sixteen rounds always
/// exhaust a 1/65536 fraction exactly.
pub open spec fn frac_digit_seq(frac: int, fuel: nat) -> Seq<char>
    decreases fuel,
{
    if frac <= 0 || fuel == 0 {
        Seq::empty()
    } else {
        seq![digit_char((frac * 10) / 65536)] + frac_digit_seq(
            (frac * 10) % 65536,
            (fuel - 1) as nat,
        )
    }
}

/// The decimal rendering of an exact fixed-point raw step count: an
/// optional minus sign, the whole part, and the fractional digits after a
/// point when any fraction remains — no trailing zeros, no point on a
/// whole number.
pub open spec fn fixed_chars(raw: int) -> Seq<char> {
    let mag = if raw < 0 {
        -raw
    } else {
        raw
    };
    (if raw < 0 {
        seq!['-']
    } else {
        Seq::<char>::empty()
    }) + dec_digits(mag / 65536) + (if mag % 65536 > 0 {
        seq!['.'] + frac_digit_seq(mag % 65536, 16)
    } else {
        Seq::<char>::empty()
    })
}

/// The rendering of a whole vector: the components in decimal,
/// parenthesised and comma-separated.
pub open spec fn vec3_chars(v: Vec3) -> Seq<char> {
    seq!['('] + fixed_chars(v.x.raw as int) + seq![',', ' '] + fixed_chars(v.y.raw as int)
        + seq![',', ' '] + fixed_chars(v.z.raw as int) + seq![')']
}

fn digit_text(d: u64) -> (r: &'static str)
    requires
        d < 10,
    ensures
        r@ == seq![digit_char(d as int)],
{
    proof {
        reveal_strlit("0");
        reveal_strlit("1");
        reveal_strlit("2");
        reveal_strlit("3");
        reveal_strlit("4");
        reveal_strlit("5");
        reveal_strlit("6");
        reveal_strlit("7");
        reveal_strlit("8");
        reveal_strlit("9");
    }
    if d == 0 {
        proof {
            assert("0"@ =~= seq![digit_char(0)]);
        }
        "0"
    } else if d == 1 {
        proof {
            assert("1"@ =~= seq![digit_char(1)]);
        }
        "1"
    } else if d == 2 {
        proof {
            assert("2"@ =~= seq![digit_char(2)]);
        }
        "2"
    } else if d == 3 {
        proof {
            assert("3"@ =~= seq![digit_char(3)]);
        }
        "3"
    } else if d == 4 {
        proof {
            assert("4"@ =~= seq![digit_char(4)]);
        }
        "4"
    } else if d == 5 {
        proof {
            assert("5"@ =~= seq![digit_char(5)]);
        }
        "5"
    } else if d == 6 {
        proof {
            assert("6"@ =~= seq![digit_char(6)]);
        }
        "6"
    } else if d == 7 {
        proof {
            assert("7"@ =~= seq![digit_char(7)]);
        }
        "7"
    } else if d == 8 {
        proof {
            assert("8"@ =~= seq![digit_char(8)]);
        }
        "8"
    } else {
        proof {
            assert("9"@ =~= seq![digit_char(9)]);
        }
        "9"
    }
}

fn whole_text(n: u64) -> (s: String)
    ensures
        s@ == dec_digits(n as int),
    decreases n,
{
    if n < 10 {
        digit_text(n).to_owned()
    } else {
        let mut s = whole_text(n / 10);
        s.append(digit_text(n % 10));
        proof {
            assert(s@ =~= dec_digits(n as int));
        }
        s
    }
}

fn frac_text(frac: u64, fuel: u8) -> (s: String)
    requires
        frac < 65536,
    ensures
        s@ == frac_digit_seq(frac as int, fuel as nat),
    decreases fuel,
{
    if frac == 0 || fuel == 0 {
        String::new()
    } else {
        let wide = frac * 10;
        let mut s = digit_text(wide / 65536).to_owned();
        let rest = frac_text(wide % 65536, fuel - 1);
        s.append(rest.as_str());
        proof {
            assert(s@ =~= frac_digit_seq(frac as int, fuel as nat));
        }
        s
    }
}

/// Renders an exact fixed-point value in decimal, the way a binary
/// fraction prints: no trailing zeros, no fractional point on a whole
/// number.
fn fixed_text(v: Fixed) -> (s: String)
    requires
        v.raw != i64::MIN,
    ensures
        s@ == fixed_chars(v.raw as int),
{
    let neg = v.raw < 0;
    let mag: i64 = if neg {
        -v.raw
    } else {
        v.raw
    };
    let int_part: u64 = (mag / 65536) as u64;
    let frac: u64 = (mag % 65536) as u64;
    let mut s = String::new();
    if neg {
        proof {
            reveal_strlit("-");
        }
        s.append("-");
    }
    s.append(whole_text(int_part).as_str());
    if frac > 0 {
        proof {
            reveal_strlit(".");
        }
        s.append(".");
        let digits = frac_text(frac, 16);
        s.append(digits.as_str());
    }
    proof {
        if neg {
            assert("-"@ =~= seq!['-']);
        }
        assert(s@ =~= fixed_chars(v.raw as int));
    }
    s
}

impl Vec3 {
    /// The vector as text: the components in decimal, parenthesised and
    /// comma-separated.
    pub fn to_text(&self) -> (s: String)
        requires
            self.x.raw != i64::MIN,
            self.y.raw != i64::MIN,
            self.z.raw != i64::MIN,
        ensures
            s@ == vec3_chars(*self),
    {
        proof {
            reveal_strlit("(");
            reveal_strlit(", ");
            reveal_strlit(")");
        }
        let mut s = String::new();
        s.append("(");
        let x = fixed_text(self.x);
        s.append(x.as_str());
        s.append(", ");
        let y = fixed_text(self.y);
        s.append(y.as_str());
        s.append(", ");
        let z = fixed_text(self.z);
        s.append(z.as_str());
        s.append(")");
        proof {
            assert("("@ =~= seq!['(']);
            assert(", "@ =~= seq![',', ' ']);
            assert(")"@ =~= seq![')']);
            assert(s@ =~= vec3_chars(*self));
        }
        s
    }
}

} // verus!
