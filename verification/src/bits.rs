//! Bytes, words and flag bits: the arithmetic reading of the bit operations
//! that the rest of the crate is written with.

use vstd::prelude::*;

verus! {

/// The 16-bit word whose low byte is `lo` and whose high byte is `hi`.
pub open spec fn word(lo: u8, hi: u8) -> u16 {
    (lo + 256 * hi) as u16
}

/// The low byte of a word.
pub open spec fn low_byte(w: u16) -> u8 {
    (w % 256) as u8
}

/// The high byte of a word.
pub open spec fn high_byte(w: u16) -> u8 {
    (w / 256) as u8
}

/// Whether two addresses lie in the same 256-byte page.
pub open spec fn same_page(a: u16, b: u16) -> bool {
    a / 256 == b / 256
}

/// A byte read as a two's-complement number, from -128 to 127.
pub open spec fn signed(v: u8) -> int {
    if v >= 128 {
        v - 256
    } else {
        v as int
    }
}

/// Whether every bit of `flag` is set in `bits`.
pub open spec fn has_flag(bits: u8, flag: u8) -> bool {
    bits & flag == flag
}

/// `bits` with the bits of `flag` switched on or off.
pub open spec fn with_flag(bits: u8, flag: u8, on: bool) -> u8 {
    if on {
        bits | flag
    } else {
        bits & !flag
    }
}

/// Whether a byte has exactly one bit set.
pub open spec fn single_bit(flag: u8) -> bool {
    flag == 0x01 || flag == 0x02 || flag == 0x04 || flag == 0x08 || flag == 0x10 || flag == 0x20
        || flag == 0x40 || flag == 0x80
}

/// Switching a non-empty flag on or off is what a later test of it sees.
pub proof fn lemma_with_flag_has(bits: u8, flag: u8, on: bool)
    by (bit_vector)
    requires
        flag != 0,
    ensures
        has_flag(with_flag(bits, flag, on), flag) == on,
{
}

/// Switching one flag leaves every bit outside it as it was.
pub proof fn lemma_with_flag_keeps(bits: u8, flag: u8, on: bool)
    by (bit_vector)
    ensures
        with_flag(bits, flag, on) & !flag == bits & !flag,
{
}

/// Switching one single-bit flag leaves every other single-bit flag as it
/// was.
pub proof fn lemma_with_flag_spares(bits: u8, flag: u8, on: bool, other: u8)
    by (bit_vector)
    requires
        single_bit(flag),
        single_bit(other),
        flag != other,
    ensures
        has_flag(with_flag(bits, flag, on), other) == has_flag(bits, other),
{
}

/// A single-bit flag, read as arithmetic: it is set exactly when the binary
/// digit of its place is 1, and switching it adds or takes away its place
/// value, or nothing where it stood so already.
pub proof fn lemma_flag_is_a_digit(bits: u8, flag: u8)
    by (bit_vector)
    requires
        single_bit(flag),
    ensures
        has_flag(bits, flag) <==> (bits / flag) % 2 == 1,
        with_flag(bits, flag, true) == if has_flag(bits, flag) {
            bits
        } else {
            (bits + flag) as u8
        },
        with_flag(bits, flag, false) == if has_flag(bits, flag) {
            (bits - flag) as u8
        } else {
            bits
        },
{
}

/// The top bit of a byte is set exactly when the byte is 128 or more, and
/// masking with all eight bits keeps the byte.
pub proof fn lemma_byte(bits: u8)
    by (bit_vector)
    ensures
        has_flag(bits, 0x80) <==> bits >= 0x80,
        !0x80u8 == 0x7fu8,
        bits & 0xff == bits,
{
}

/// Masks and shifts by whole bytes, read as remainders and quotients.
pub proof fn lemma_masks(a: u16)
    by (bit_vector)
    ensures
        a & 0xff == a % 256,
        a >> 8 == a / 256,
        a & 0xff00 == (a / 256) * 256,
        a & 0x7ff == a % 0x800,
        a & 0x3fff == a % 0x4000,
{
}

/// Joins two bytes into a word, low byte first.
pub fn make_word(lo: u8, hi: u8) -> (w: u16)
    ensures
        w == word(lo, hi),
        low_byte(w) == lo,
        high_byte(w) == hi,
{
    assert((lo as u16) | ((hi as u16) << 8) == lo + 256 * hi) by (bit_vector);
    (lo as u16) | ((hi as u16) << 8)
}

/// The low byte of `w`.
pub fn lo(w: u16) -> (b: u8)
    ensures
        b == low_byte(w),
{
    proof {
        lemma_masks(w);
    }
    (w & 0xff) as u8
}

/// The high byte of `w`.
pub fn hi(w: u16) -> (b: u8)
    ensures
        b == high_byte(w),
{
    proof {
        lemma_masks(w);
    }
    (w >> 8) as u8
}

/// A word is the join of its two bytes.
pub proof fn lemma_word_of_bytes(w: u16)
    ensures
        word(low_byte(w), high_byte(w)) == w,
{
}

} // verus!
