//! Byte and word arithmetic of an 8-bit machine with a 16-bit address space.
//!
//! Every operation has an arithmetic meaning (a product, a quotient, a
//! remainder) that the contracts state; the bit patterns that compute it are
//! confined to this module.

use vstd::prelude::*;

verus! {

/// The 16-bit word whose low byte is `lo` and whose high byte is `hi`.
pub open spec fn word(lo: u8, hi: u8) -> u16 {
    (hi as int * 256 + lo as int) as u16
}

/// The low byte of a word.
pub open spec fn low(v: u16) -> u8 {
    (v % 256) as u8
}

/// The high byte of a word.
pub open spec fn high(v: u16) -> u8 {
    (v / 256) as u8
}

/// A word is the word of its two bytes.
pub proof fn lemma_word_of_parts(v: u16)
    ensures
        word(low(v), high(v)) == v,
{
}

/// Joins two bytes, low byte first.
pub fn make_word(lo: u8, hi: u8) -> (w: u16)
    ensures
        w == word(lo, hi),
{
    (hi as u16) * 256 + (lo as u16)
}

/// The low byte of `v`.
pub fn low_byte(v: u16) -> (b: u8)
    ensures
        b == low(v),
{
    (v % 256) as u8
}

/// The high byte of `v`.
pub fn high_byte(v: u16) -> (b: u8)
    ensures
        b == high(v),
{
    (v / 256) as u8
}

/// `n` zero bytes.
pub open spec fn zeros(n: nat) -> Seq<u8> {
    Seq::new(n, |i: int| 0u8)
}

/// Whether any bit of `mask` is set in `p`.
pub open spec fn has_flag(p: u8, mask: u8) -> bool {
    p & mask != 0
}

/// `p` with the bits of `mask` set when `on`, cleared otherwise.
pub open spec fn with_flag(p: u8, mask: u8, on: bool) -> u8 {
    if on {
        p | mask
    } else {
        p & !mask
    }
}

/// A mask that selects exactly one bit of a byte.
pub open spec fn single_bit(mask: u8) -> bool {
    mask == 0x01 || mask == 0x02 || mask == 0x04 || mask == 0x08 || mask == 0x10 || mask == 0x20
        || mask == 0x40 || mask == 0x80
}

/// Writing one flag makes that flag read back as written and leaves every
/// other flag as it was.
pub proof fn lemma_with_flag(p: u8, m: u8, n: u8, on: bool)
    by (bit_vector)
    requires
        single_bit(m),
        single_bit(n),
    ensures
        has_flag(with_flag(p, m, on), m) == on,
        m != n ==> has_flag(with_flag(p, m, on), n) == has_flag(p, n),
{
}

/// The numeric meaning of the three bits that instructions test: bit 7 is the
/// sign of a byte, bit 6 its second-highest digit, bit 0 its parity.
pub proof fn lemma_tested_bits(v: u8)
    by (bit_vector)
    ensures
        has_flag(v, 0x80) == (v >= 128),
        has_flag(v, 0x40) == ((v / 64) % 2 == 1),
        has_flag(v, 0x01) == (v % 2 == 1),
{
}

/// Tests `p` against `mask`.
pub fn test_flag(p: u8, mask: u8) -> (set: bool)
    ensures
        set == has_flag(p, mask),
{
    p & mask != 0
}

/// Sets or clears the bits of `mask` in `p`.
pub fn put_flag(p: u8, mask: u8, on: bool) -> (r: u8)
    ensures
        r == with_flag(p, mask, on),
{
    if on {
        p | mask
    } else {
        p & !mask
    }
}

/// Whether bit 7 of `v` is set, that is, whether `v` is at least 128.
pub fn is_negative(v: u8) -> (set: bool)
    ensures
        set == (v >= 128),
{
    proof {
        lemma_tested_bits(v);
    }
    v & 0x80 != 0
}

/// Whether bit 0 of `v` is set, that is, whether `v` is odd.
pub fn is_odd(v: u8) -> (set: bool)
    ensures
        set == (v % 2 == 1),
{
    proof {
        lemma_tested_bits(v);
    }
    v & 0x01 != 0
}

/// The one's complement of `v`, which is `255 - v`.
pub open spec fn complement(v: u8) -> u8 {
    (255 - v) as u8
}

/// Inverts every bit of `v`.
pub fn invert(v: u8) -> (r: u8)
    ensures
        r == complement(v),
{
    let r = v ^ 0xFF;
    assert(r == 255 - v) by (bit_vector)
        requires
            r == v ^ 0xFF,
    ;
    r
}

/// `v` doubled, modulo 256.
pub open spec fn shl1(v: u8) -> u8 {
    ((v as int * 2) % 256) as u8
}

/// `v` halved, rounding down.
pub open spec fn shr1(v: u8) -> u8 {
    v / 2
}

/// `v` doubled modulo 256, with `carry` entering as the lowest bit.
pub open spec fn rol1(v: u8, carry: bool) -> u8 {
    ((v as int * 2) % 256 + if carry { 1int } else { 0int }) as u8
}

/// `v` halved, with `carry` entering as the highest bit.
pub open spec fn ror1(v: u8, carry: bool) -> u8 {
    (v as int / 2 + if carry { 128int } else { 0int }) as u8
}

/// Shifts `v` left by one bit; the bit that leaves is `v >= 128`.
pub fn shift_left(v: u8) -> (r: u8)
    ensures
        r == shl1(v),
{
    let r = v << 1;
    assert(r == (v as int * 2) % 256) by (bit_vector)
        requires
            r == v << 1,
    ;
    r
}

/// Shifts `v` right by one bit; the bit that leaves is `v % 2 == 1`.
pub fn shift_right(v: u8) -> (r: u8)
    ensures
        r == shr1(v),
{
    let r = v >> 1;
    assert(r == v / 2) by (bit_vector)
        requires
            r == v >> 1,
    ;
    r
}

/// Rotates `v` left by one bit through `carry`.
pub fn rotate_left(v: u8, carry: bool) -> (r: u8)
    ensures
        r == rol1(v, carry),
{
    let low: u8 = if carry { 1 } else { 0 };
    let r = (v << 1) | low;
    assert(r == (v as int * 2) % 256 + low) by (bit_vector)
        requires
            r == (v << 1) | low,
            low == 0 || low == 1,
    ;
    r
}

/// Rotates `v` right by one bit through `carry`.
pub fn rotate_right(v: u8, carry: bool) -> (r: u8)
    ensures
        r == ror1(v, carry),
{
    let top: u8 = if carry { 0x80 } else { 0 };
    let r = (v >> 1) | top;
    assert(r == v as int / 2 + top) by (bit_vector)
        requires
            r == (v >> 1) | top,
            top == 0 || top == 0x80,
    ;
    r
}

/// A branch displacement read as a signed byte, from -128 to 127.
pub open spec fn displacement(d: u8) -> int {
    if d < 128 {
        d as int
    } else {
        d as int - 256
    }
}

/// `base + offset` within the 16-bit address space.
pub open spec fn wrap16(i: int) -> u16 {
    (i % 0x1_0000) as u16
}

/// `pc` moved by the signed displacement `d`, wrapping at 16 bits.
pub fn displace(pc: u16, d: u8) -> (r: u16)
    ensures
        r == wrap16(pc + displacement(d)),
{
    if d < 128 {
        pc.wrapping_add(d as u16)
    } else {
        pc.wrapping_sub(256 - d as u16)
    }
}

} // verus!
