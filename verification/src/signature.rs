//! The 4-byte identifiers ("FourCC") that name tags, tag types and other
//! registered entities of a profile.

use vstd::prelude::*;
use crate::stream::u32_be_bytes;

verus! {

/// An opaque 4-byte big-endian identifier.  It is carried as the 32-bit word
/// whose big-endian bytes are the four characters; equality is byte-exact.
#[derive(Copy, Clone, Debug, Eq, PartialEq, Structural, Hash)]
pub struct Signature(pub u32);

/// The word that four bytes form when read big-endian.
pub open spec fn sig_word(b0: u8, b1: u8, b2: u8, b3: u8) -> int {
    (b0 as int) * 0x100_0000 + (b1 as int) * 0x1_0000 + (b2 as int) * 0x100 + (b3 as int)
}

impl Signature {
    /// Builds a signature from its four bytes.
    pub fn new(value: &[u8; 4]) -> (r: Signature)
        ensures
            r.0 == sig_word(value[0], value[1], value[2], value[3]),
    {
        let b0 = value[0];
        let b1 = value[1];
        let b2 = value[2];
        let b3 = value[3];
        Signature(
            (b0 as u32) * 0x100_0000 + (b1 as u32) * 0x1_0000 + (b2 as u32) * 0x100 + (b3 as u32),
        )
    }

    /// The signature's 32-bit value.
    pub fn to_u32(self) -> (r: u32)
        ensures
            r == self.0,
    {
        self.0
    }

    /// The signature whose big-endian bytes the given word holds.
    pub fn from_u32(value: u32) -> (r: Signature)
        ensures
            r.0 == value,
    {
        Signature(value)
    }

    /// The four bytes of the signature, most significant first.
    pub fn to_bytes(self) -> (r: [u8; 4])
        ensures
            self.0 == sig_word(r[0], r[1], r[2], r[3]),
            r@ == u32_be_bytes(self.0),
    {
        let b0 = (self.0 / 0x100_0000) as u8;
        let b1 = ((self.0 / 0x1_0000) % 0x100) as u8;
        let b2 = ((self.0 / 0x100) % 0x100) as u8;
        let b3 = (self.0 % 0x100) as u8;
        let r = [b0, b1, b2, b3];
        proof {
            assert(self.0 == sig_word(r[0], r[1], r[2], r[3])) by {
                assert(self.0 / 0x100_0000 < 0x100);
            };
            assert(r@ =~= u32_be_bytes(self.0));
        }
        r
    }

    /// Builds a signature from at most four bytes; shorter inputs are padded
    /// on the right with spaces, and an empty input gives the all-zero word.
    pub fn from_slice(value: &[u8]) -> (r: Signature)
        ensures
            value@.len() == 0 ==> r.0 == 0,
            value@.len() == 1 ==> r.0 == sig_word(value@[0], 0x20, 0x20, 0x20),
            value@.len() == 2 ==> r.0 == sig_word(value@[0], value@[1], 0x20, 0x20),
            value@.len() == 3 ==> r.0 == sig_word(value@[0], value@[1], value@[2], 0x20),
            value@.len() >= 4 ==> r.0 == sig_word(value@[0], value@[1], value@[2], value@[3]),
    {
        let len = value.len();
        if len == 0 {
            Signature(0)
        } else if len == 1 {
            Signature::new(&[value[0], 0x20, 0x20, 0x20])
        } else if len == 2 {
            Signature::new(&[value[0], value[1], 0x20, 0x20])
        } else if len == 3 {
            Signature::new(&[value[0], value[1], value[2], 0x20])
        } else {
            Signature::new(&[value[0], value[1], value[2], value[3]])
        }
    }
}

impl Default for Signature {
    /// The blank signature: four space bytes.
    fn default() -> (r: Self)
        ensures
            r.0 == 0x2020_2020,
    {
        Signature(0x2020_2020)
    }
}


/// Whether all four bytes of the word are printable ASCII, so that the
/// signature can read as a 4-character string.
pub open spec fn printable_sig(v: u32) -> bool {
    forall|i: int| 0 <= i < 4 ==> 0x20 <= #[trigger] u32_be_bytes(v)[i] < 0x7F
}

/// The character of one hexadecimal digit, lower case.
pub open spec fn hex_digit_char(d: int) -> char {
    if d < 10 {
        (((0x30 + d) as u8) as char)
    } else {
        (((0x57 + d) as u8) as char)
    }
}

/// The two hexadecimal digits of one byte.
pub open spec fn byte_hex_chars(b: u8) -> Seq<char> {
    seq![hex_digit_char(b as int / 16), hex_digit_char(b as int % 16)]
}

fn hex_digit_text(d: u8) -> (r: &'static str)
    requires
        d < 16,
    ensures
        r@ == seq![hex_digit_char(d as int)],
{
    if d == 0 {
        proof {
            reveal_strlit("0");
            assert("0"@ =~= seq![hex_digit_char(0)]);
        }
        "0"
    } else if d == 1 {
        proof {
            reveal_strlit("1");
            assert("1"@ =~= seq![hex_digit_char(1)]);
        }
        "1"
    } else if d == 2 {
        proof {
            reveal_strlit("2");
            assert("2"@ =~= seq![hex_digit_char(2)]);
        }
        "2"
    } else if d == 3 {
        proof {
            reveal_strlit("3");
            assert("3"@ =~= seq![hex_digit_char(3)]);
        }
        "3"
    } else if d == 4 {
        proof {
            reveal_strlit("4");
            assert("4"@ =~= seq![hex_digit_char(4)]);
        }
        "4"
    } else if d == 5 {
        proof {
            reveal_strlit("5");
            assert("5"@ =~= seq![hex_digit_char(5)]);
        }
        "5"
    } else if d == 6 {
        proof {
            reveal_strlit("6");
            assert("6"@ =~= seq![hex_digit_char(6)]);
        }
        "6"
    } else if d == 7 {
        proof {
            reveal_strlit("7");
            assert("7"@ =~= seq![hex_digit_char(7)]);
        }
        "7"
    } else if d == 8 {
        proof {
            reveal_strlit("8");
            assert("8"@ =~= seq![hex_digit_char(8)]);
        }
        "8"
    } else if d == 9 {
        proof {
            reveal_strlit("9");
            assert("9"@ =~= seq![hex_digit_char(9)]);
        }
        "9"
    } else if d == 10 {
        proof {
            reveal_strlit("a");
            assert("a"@ =~= seq![hex_digit_char(10)]);
        }
        "a"
    } else if d == 11 {
        proof {
            reveal_strlit("b");
            assert("b"@ =~= seq![hex_digit_char(11)]);
        }
        "b"
    } else if d == 12 {
        proof {
            reveal_strlit("c");
            assert("c"@ =~= seq![hex_digit_char(12)]);
        }
        "c"
    } else if d == 13 {
        proof {
            reveal_strlit("d");
            assert("d"@ =~= seq![hex_digit_char(13)]);
        }
        "d"
    } else if d == 14 {
        proof {
            reveal_strlit("e");
            assert("e"@ =~= seq![hex_digit_char(14)]);
        }
        "e"
    } else {
        proof {
            reveal_strlit("f");
            assert("f"@ =~= seq![hex_digit_char(15)]);
        }
        "f"
    }
}

/// The one-character string of a printable ASCII byte.
#[verifier::rlimit(50)]
fn ascii_char_text(b: u8) -> (r: &'static str)
    requires
        0x20 <= b < 0x7F,
    ensures
        r@ == seq![b as char],
{
    if b == 0x20 {
        proof {
            reveal_strlit(" ");
            assert(" "@ =~= seq![0x20u8 as char]);
        }
        " "
    } else if b == 0x21 {
        proof {
            reveal_strlit("!");
            assert("!"@ =~= seq![0x21u8 as char]);
        }
        "!"
    } else if b == 0x22 {
        proof {
            reveal_strlit("\"");
            assert("\""@ =~= seq![0x22u8 as char]);
        }
        "\""
    } else if b == 0x23 {
        proof {
            reveal_strlit("#");
            assert("#"@ =~= seq![0x23u8 as char]);
        }
        "#"
    } else if b == 0x24 {
        proof {
            reveal_strlit("$");
            assert("$"@ =~= seq![0x24u8 as char]);
        }
        "$"
    } else if b == 0x25 {
        proof {
            reveal_strlit("%");
            assert("%"@ =~= seq![0x25u8 as char]);
        }
        "%"
    } else if b == 0x26 {
        proof {
            reveal_strlit("&");
            assert("&"@ =~= seq![0x26u8 as char]);
        }
        "&"
    } else if b == 0x27 {
        proof {
            reveal_strlit("'");
            assert("'"@ =~= seq![0x27u8 as char]);
        }
        "'"
    } else if b == 0x28 {
        proof {
            reveal_strlit("(");
            assert("("@ =~= seq![0x28u8 as char]);
        }
        "("
    } else if b == 0x29 {
        proof {
            reveal_strlit(")");
            assert(")"@ =~= seq![0x29u8 as char]);
        }
        ")"
    } else if b == 0x2A {
        proof {
            reveal_strlit("*");
            assert("*"@ =~= seq![0x2Au8 as char]);
        }
        "*"
    } else if b == 0x2B {
        proof {
            reveal_strlit("+");
            assert("+"@ =~= seq![0x2Bu8 as char]);
        }
        "+"
    } else if b == 0x2C {
        proof {
            reveal_strlit(",");
            assert(","@ =~= seq![0x2Cu8 as char]);
        }
        ","
    } else if b == 0x2D {
        proof {
            reveal_strlit("-");
            assert("-"@ =~= seq![0x2Du8 as char]);
        }
        "-"
    } else if b == 0x2E {
        proof {
            reveal_strlit(".");
            assert("."@ =~= seq![0x2Eu8 as char]);
        }
        "."
    } else if b == 0x2F {
        proof {
            reveal_strlit("/");
            assert("/"@ =~= seq![0x2Fu8 as char]);
        }
        "/"
    } else if b == 0x30 {
        proof {
            reveal_strlit("0");
            assert("0"@ =~= seq![0x30u8 as char]);
        }
        "0"
    } else if b == 0x31 {
        proof {
            reveal_strlit("1");
            assert("1"@ =~= seq![0x31u8 as char]);
        }
        "1"
    } else if b == 0x32 {
        proof {
            reveal_strlit("2");
            assert("2"@ =~= seq![0x32u8 as char]);
        }
        "2"
    } else if b == 0x33 {
        proof {
            reveal_strlit("3");
            assert("3"@ =~= seq![0x33u8 as char]);
        }
        "3"
    } else if b == 0x34 {
        proof {
            reveal_strlit("4");
            assert("4"@ =~= seq![0x34u8 as char]);
        }
        "4"
    } else if b == 0x35 {
        proof {
            reveal_strlit("5");
            assert("5"@ =~= seq![0x35u8 as char]);
        }
        "5"
    } else if b == 0x36 {
        proof {
            reveal_strlit("6");
            assert("6"@ =~= seq![0x36u8 as char]);
        }
        "6"
    } else if b == 0x37 {
        proof {
            reveal_strlit("7");
            assert("7"@ =~= seq![0x37u8 as char]);
        }
        "7"
    } else if b == 0x38 {
        proof {
            reveal_strlit("8");
            assert("8"@ =~= seq![0x38u8 as char]);
        }
        "8"
    } else if b == 0x39 {
        proof {
            reveal_strlit("9");
            assert("9"@ =~= seq![0x39u8 as char]);
        }
        "9"
    } else if b == 0x3A {
        proof {
            reveal_strlit(":");
            assert(":"@ =~= seq![0x3Au8 as char]);
        }
        ":"
    } else if b == 0x3B {
        proof {
            reveal_strlit(";");
            assert(";"@ =~= seq![0x3Bu8 as char]);
        }
        ";"
    } else if b == 0x3C {
        proof {
            reveal_strlit("<");
            assert("<"@ =~= seq![0x3Cu8 as char]);
        }
        "<"
    } else if b == 0x3D {
        proof {
            reveal_strlit("=");
            assert("="@ =~= seq![0x3Du8 as char]);
        }
        "="
    } else if b == 0x3E {
        proof {
            reveal_strlit(">");
            assert(">"@ =~= seq![0x3Eu8 as char]);
        }
        ">"
    } else if b == 0x3F {
        proof {
            reveal_strlit("?");
            assert("?"@ =~= seq![0x3Fu8 as char]);
        }
        "?"
    } else if b == 0x40 {
        proof {
            reveal_strlit("@");
            assert("@"@ =~= seq![0x40u8 as char]);
        }
        "@"
    } else if b == 0x41 {
        proof {
            reveal_strlit("A");
            assert("A"@ =~= seq![0x41u8 as char]);
        }
        "A"
    } else if b == 0x42 {
        proof {
            reveal_strlit("B");
            assert("B"@ =~= seq![0x42u8 as char]);
        }
        "B"
    } else if b == 0x43 {
        proof {
            reveal_strlit("C");
            assert("C"@ =~= seq![0x43u8 as char]);
        }
        "C"
    } else if b == 0x44 {
        proof {
            reveal_strlit("D");
            assert("D"@ =~= seq![0x44u8 as char]);
        }
        "D"
    } else if b == 0x45 {
        proof {
            reveal_strlit("E");
            assert("E"@ =~= seq![0x45u8 as char]);
        }
        "E"
    } else if b == 0x46 {
        proof {
            reveal_strlit("F");
            assert("F"@ =~= seq![0x46u8 as char]);
        }
        "F"
    } else if b == 0x47 {
        proof {
            reveal_strlit("G");
            assert("G"@ =~= seq![0x47u8 as char]);
        }
        "G"
    } else if b == 0x48 {
        proof {
            reveal_strlit("H");
            assert("H"@ =~= seq![0x48u8 as char]);
        }
        "H"
    } else if b == 0x49 {
        proof {
            reveal_strlit("I");
            assert("I"@ =~= seq![0x49u8 as char]);
        }
        "I"
    } else if b == 0x4A {
        proof {
            reveal_strlit("J");
            assert("J"@ =~= seq![0x4Au8 as char]);
        }
        "J"
    } else if b == 0x4B {
        proof {
            reveal_strlit("K");
            assert("K"@ =~= seq![0x4Bu8 as char]);
        }
        "K"
    } else if b == 0x4C {
        proof {
            reveal_strlit("L");
            assert("L"@ =~= seq![0x4Cu8 as char]);
        }
        "L"
    } else if b == 0x4D {
        proof {
            reveal_strlit("M");
            assert("M"@ =~= seq![0x4Du8 as char]);
        }
        "M"
    } else if b == 0x4E {
        proof {
            reveal_strlit("N");
            assert("N"@ =~= seq![0x4Eu8 as char]);
        }
        "N"
    } else if b == 0x4F {
        proof {
            reveal_strlit("O");
            assert("O"@ =~= seq![0x4Fu8 as char]);
        }
        "O"
    } else if b == 0x50 {
        proof {
            reveal_strlit("P");
            assert("P"@ =~= seq![0x50u8 as char]);
        }
        "P"
    } else if b == 0x51 {
        proof {
            reveal_strlit("Q");
            assert("Q"@ =~= seq![0x51u8 as char]);
        }
        "Q"
    } else if b == 0x52 {
        proof {
            reveal_strlit("R");
            assert("R"@ =~= seq![0x52u8 as char]);
        }
        "R"
    } else if b == 0x53 {
        proof {
            reveal_strlit("S");
            assert("S"@ =~= seq![0x53u8 as char]);
        }
        "S"
    } else if b == 0x54 {
        proof {
            reveal_strlit("T");
            assert("T"@ =~= seq![0x54u8 as char]);
        }
        "T"
    } else if b == 0x55 {
        proof {
            reveal_strlit("U");
            assert("U"@ =~= seq![0x55u8 as char]);
        }
        "U"
    } else if b == 0x56 {
        proof {
            reveal_strlit("V");
            assert("V"@ =~= seq![0x56u8 as char]);
        }
        "V"
    } else if b == 0x57 {
        proof {
            reveal_strlit("W");
            assert("W"@ =~= seq![0x57u8 as char]);
        }
        "W"
    } else if b == 0x58 {
        proof {
            reveal_strlit("X");
            assert("X"@ =~= seq![0x58u8 as char]);
        }
        "X"
    } else if b == 0x59 {
        proof {
            reveal_strlit("Y");
            assert("Y"@ =~= seq![0x59u8 as char]);
        }
        "Y"
    } else if b == 0x5A {
        proof {
            reveal_strlit("Z");
            assert("Z"@ =~= seq![0x5Au8 as char]);
        }
        "Z"
    } else if b == 0x5B {
        proof {
            reveal_strlit("[");
            assert("["@ =~= seq![0x5Bu8 as char]);
        }
        "["
    } else if b == 0x5C {
        proof {
            reveal_strlit("\\");
            assert("\\"@ =~= seq![0x5Cu8 as char]);
        }
        "\\"
    } else if b == 0x5D {
        proof {
            reveal_strlit("]");
            assert("]"@ =~= seq![0x5Du8 as char]);
        }
        "]"
    } else if b == 0x5E {
        proof {
            reveal_strlit("^");
            assert("^"@ =~= seq![0x5Eu8 as char]);
        }
        "^"
    } else if b == 0x5F {
        proof {
            reveal_strlit("_");
            assert("_"@ =~= seq![0x5Fu8 as char]);
        }
        "_"
    } else if b == 0x60 {
        proof {
            reveal_strlit("`");
            assert("`"@ =~= seq![0x60u8 as char]);
        }
        "`"
    } else if b == 0x61 {
        proof {
            reveal_strlit("a");
            assert("a"@ =~= seq![0x61u8 as char]);
        }
        "a"
    } else if b == 0x62 {
        proof {
            reveal_strlit("b");
            assert("b"@ =~= seq![0x62u8 as char]);
        }
        "b"
    } else if b == 0x63 {
        proof {
            reveal_strlit("c");
            assert("c"@ =~= seq![0x63u8 as char]);
        }
        "c"
    } else if b == 0x64 {
        proof {
            reveal_strlit("d");
            assert("d"@ =~= seq![0x64u8 as char]);
        }
        "d"
    } else if b == 0x65 {
        proof {
            reveal_strlit("e");
            assert("e"@ =~= seq![0x65u8 as char]);
        }
        "e"
    } else if b == 0x66 {
        proof {
            reveal_strlit("f");
            assert("f"@ =~= seq![0x66u8 as char]);
        }
        "f"
    } else if b == 0x67 {
        proof {
            reveal_strlit("g");
            assert("g"@ =~= seq![0x67u8 as char]);
        }
        "g"
    } else if b == 0x68 {
        proof {
            reveal_strlit("h");
            assert("h"@ =~= seq![0x68u8 as char]);
        }
        "h"
    } else if b == 0x69 {
        proof {
            reveal_strlit("i");
            assert("i"@ =~= seq![0x69u8 as char]);
        }
        "i"
    } else if b == 0x6A {
        proof {
            reveal_strlit("j");
            assert("j"@ =~= seq![0x6Au8 as char]);
        }
        "j"
    } else if b == 0x6B {
        proof {
            reveal_strlit("k");
            assert("k"@ =~= seq![0x6Bu8 as char]);
        }
        "k"
    } else if b == 0x6C {
        proof {
            reveal_strlit("l");
            assert("l"@ =~= seq![0x6Cu8 as char]);
        }
        "l"
    } else if b == 0x6D {
        proof {
            reveal_strlit("m");
            assert("m"@ =~= seq![0x6Du8 as char]);
        }
        "m"
    } else if b == 0x6E {
        proof {
            reveal_strlit("n");
            assert("n"@ =~= seq![0x6Eu8 as char]);
        }
        "n"
    } else if b == 0x6F {
        proof {
            reveal_strlit("o");
            assert("o"@ =~= seq![0x6Fu8 as char]);
        }
        "o"
    } else if b == 0x70 {
        proof {
            reveal_strlit("p");
            assert("p"@ =~= seq![0x70u8 as char]);
        }
        "p"
    } else if b == 0x71 {
        proof {
            reveal_strlit("q");
            assert("q"@ =~= seq![0x71u8 as char]);
        }
        "q"
    } else if b == 0x72 {
        proof {
            reveal_strlit("r");
            assert("r"@ =~= seq![0x72u8 as char]);
        }
        "r"
    } else if b == 0x73 {
        proof {
            reveal_strlit("s");
            assert("s"@ =~= seq![0x73u8 as char]);
        }
        "s"
    } else if b == 0x74 {
        proof {
            reveal_strlit("t");
            assert("t"@ =~= seq![0x74u8 as char]);
        }
        "t"
    } else if b == 0x75 {
        proof {
            reveal_strlit("u");
            assert("u"@ =~= seq![0x75u8 as char]);
        }
        "u"
    } else if b == 0x76 {
        proof {
            reveal_strlit("v");
            assert("v"@ =~= seq![0x76u8 as char]);
        }
        "v"
    } else if b == 0x77 {
        proof {
            reveal_strlit("w");
            assert("w"@ =~= seq![0x77u8 as char]);
        }
        "w"
    } else if b == 0x78 {
        proof {
            reveal_strlit("x");
            assert("x"@ =~= seq![0x78u8 as char]);
        }
        "x"
    } else if b == 0x79 {
        proof {
            reveal_strlit("y");
            assert("y"@ =~= seq![0x79u8 as char]);
        }
        "y"
    } else if b == 0x7A {
        proof {
            reveal_strlit("z");
            assert("z"@ =~= seq![0x7Au8 as char]);
        }
        "z"
    } else if b == 0x7B {
        proof {
            reveal_strlit("{");
            assert("{"@ =~= seq![0x7Bu8 as char]);
        }
        "{"
    } else if b == 0x7C {
        proof {
            reveal_strlit("|");
            assert("|"@ =~= seq![0x7Cu8 as char]);
        }
        "|"
    } else if b == 0x7D {
        proof {
            reveal_strlit("}");
            assert("}"@ =~= seq![0x7Du8 as char]);
        }
        "}"
    } else {
        proof {
            reveal_strlit("~");
            assert("~"@ =~= seq![0x7Eu8 as char]);
        }
        "~"
    }
}

impl Signature {
    /// The signature as text: its four characters when every byte is
    /// printable ASCII, else the eight lower-case hexadecimal digits of
    /// its word.
    pub fn to_text(self) -> (r: String)
        ensures
            printable_sig(self.0) ==> r@ == u32_be_bytes(self.0).map_values(
                |b: u8| b as char,
            ),
            !printable_sig(self.0) ==> r@ == byte_hex_chars(u32_be_bytes(self.0)[0])
                + byte_hex_chars(u32_be_bytes(self.0)[1]) + byte_hex_chars(
                u32_be_bytes(self.0)[2],
            ) + byte_hex_chars(u32_be_bytes(self.0)[3]),
    {
        let bytes = self.to_bytes();
        let b0 = bytes[0];
        let b1 = bytes[1];
        let b2 = bytes[2];
        let b3 = bytes[3];
        if 0x20 <= b0 && b0 < 0x7F && 0x20 <= b1 && b1 < 0x7F && 0x20 <= b2 && b2 < 0x7F
            && 0x20 <= b3 && b3 < 0x7F {
            let mut s = ascii_char_text(b0).to_owned();
            s.append(ascii_char_text(b1));
            s.append(ascii_char_text(b2));
            s.append(ascii_char_text(b3));
            proof {
                assert(printable_sig(self.0));
                assert(s@ =~= u32_be_bytes(self.0).map_values(|b: u8| b as char));
            }
            s
        } else {
            let mut s = hex_digit_text(b0 / 16).to_owned();
            s.append(hex_digit_text(b0 % 16));
            s.append(hex_digit_text(b1 / 16));
            s.append(hex_digit_text(b1 % 16));
            s.append(hex_digit_text(b2 / 16));
            s.append(hex_digit_text(b2 % 16));
            s.append(hex_digit_text(b3 / 16));
            s.append(hex_digit_text(b3 % 16));
            proof {
                assert(!printable_sig(self.0)) by {
                    if printable_sig(self.0) {
                        assert(0x20 <= u32_be_bytes(self.0)[0] < 0x7F);
                        assert(0x20 <= u32_be_bytes(self.0)[1] < 0x7F);
                        assert(0x20 <= u32_be_bytes(self.0)[2] < 0x7F);
                        assert(0x20 <= u32_be_bytes(self.0)[3] < 0x7F);
                    }
                };
                assert(s@ =~= byte_hex_chars(u32_be_bytes(self.0)[0]) + byte_hex_chars(
                    u32_be_bytes(self.0)[1],
                ) + byte_hex_chars(u32_be_bytes(self.0)[2]) + byte_hex_chars(
                    u32_be_bytes(self.0)[3],
                ));
            }
            s
        }
    }
}

} // verus!
