//! Byte-order adjustment between a little-endian host and the big-endian
//! wire: each word has its bytes reversed.

use vstd::prelude::*;

verus! {

/// The 16-bit word with its two bytes exchanged.
pub open spec fn swap16(w: u16) -> int {
    (w % 0x100) * 0x100 + (w / 0x100)
}

/// The 32-bit word with its four bytes reversed.
pub open spec fn swap32(w: u32) -> int {
    (w % 0x100) * 0x100_0000 + ((w / 0x100) % 0x100) * 0x1_0000 + ((w / 0x1_0000) % 0x100)
        * 0x100 + (w / 0x100_0000)
}

/// The 64-bit word with its eight bytes reversed.
pub open spec fn swap64(w: u64) -> int {
    (w % 0x100) * 0x100_0000_0000_0000 + ((w / 0x100) % 0x100) * 0x1_0000_0000_0000 + ((w
        / 0x1_0000) % 0x100) * 0x100_0000_0000 + ((w / 0x100_0000) % 0x100) * 0x1_0000_0000 + ((w
        / 0x1_0000_0000) % 0x100) * 0x100_0000 + ((w / 0x100_0000_0000) % 0x100) * 0x1_0000 + ((w
        / 0x1_0000_0000_0000) % 0x100) * 0x100 + (w / 0x100_0000_0000_0000)
}

/// Reverses the bytes of a 16-bit word.
pub fn adjust_endianness_16(word: u16) -> (r: u16)
    ensures
        r as int == swap16(word),
{
    (word % 0x100) * 0x100 + (word / 0x100)
}

/// Reverses the bytes of a 32-bit word.
pub fn adjust_endianness_32(dword: u32) -> (r: u32)
    ensures
        r as int == swap32(dword),
{
    (dword % 0x100) * 0x100_0000 + ((dword / 0x100) % 0x100) * 0x1_0000 + ((dword / 0x1_0000)
        % 0x100) * 0x100 + (dword / 0x100_0000)
}

/// Reverses the bytes of a 64-bit word.
pub fn adjust_endianness_64(qword: u64) -> (r: u64)
    ensures
        r as int == swap64(qword),
{
    (qword % 0x100) * 0x100_0000_0000_0000 + ((qword / 0x100) % 0x100) * 0x1_0000_0000_0000 + ((
    qword / 0x1_0000) % 0x100) * 0x100_0000_0000 + ((qword / 0x100_0000) % 0x100)
        * 0x1_0000_0000 + ((qword / 0x1_0000_0000) % 0x100) * 0x100_0000 + ((qword
        / 0x100_0000_0000) % 0x100) * 0x1_0000 + ((qword / 0x1_0000_0000_0000) % 0x100) * 0x100 + (
    qword / 0x100_0000_0000_0000)
}

/// Law: the adjustment is an involution — swapping twice gives the word
/// back.
pub proof fn lemma_swap16_involution(w: u16)
    ensures
        swap16((swap16(w) as u16)) == w,
{
}

} // verus!
