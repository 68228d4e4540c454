use vstd::prelude::*;

use crate::semantics::zn;

verus! {

/// A word assembled from its high and low bytes.
pub proof fn lemma_word_from_bytes(hi: u16, lo: u16)
    by (bit_vector)
    requires
        hi < 256,
        lo < 256,
    ensures
        (hi << 8) | lo == hi * 256 + lo,
        (hi << 8) & lo == 0,
{
}

/// The two bytes of a word.
pub proof fn lemma_word_bytes(data: u16)
    by (bit_vector)
    ensures
        (data >> 8) as u8 == data / 256,
        (data & 0xff) as u8 == data % 256,
{
}

/// The constant masks the emulator clears flags with.
pub proof fn lemma_masks()
    by (bit_vector)
    ensures
        !0b0000_0010u8 == 0b1111_1101u8,
        !0b1000_0000u8 == 0b0111_1111u8,
        !0b0000_0001u8 == 0b1111_1110u8,
{
}

/// Facts about the top and bottom bits of a byte.
pub proof fn lemma_byte_bits(m: u8)
    by (bit_vector)
    ensures
        (m & 0b1000_0000 != 0) == (m >= 0x80),
        m & 1 == m % 2,
        m >= 0x80 ==> (m & 0b1000_0000) >> 7 == 1,
        m < 0x80 ==> (m & 0b1000_0000) >> 7 == 0,
        m >> 1 == m / 2,
{
}

/// Doubling a byte drops its top bit.
pub proof fn lemma_shift_left(m: u8)
    by (bit_vector)
    ensures
        (m << 1) as u16 == (m as u16 * 2) % 256,
{
}

/// Setting or clearing the carry bit through a mask and an or.
pub proof fn lemma_carry_update(status: u8, bit: u8)
    by (bit_vector)
    requires
        bit <= 1,
    ensures
        (status & !1u8) | bit == (if bit == 1 { status | 1 } else { status & !1u8 }),
        (status & 0b1111_1110) | 1 == status | 1,
{
}

/// Rotating left through the carry.
pub proof fn lemma_rotate(m: u8, c: u8)
    by (bit_vector)
    requires
        c <= 1,
    ensures
        ((m << 1) | c) as u16 == (m as u16 * 2 + c as u16) % 256,
{
}

/// Rotating right through the carry.
pub proof fn lemma_rotate_right(m: u8, c: u8)
    by (bit_vector)
    requires
        c <= 1,
    ensures
        c == 1 ==> (m >> 1) | (c << 7) == m / 2 + 128,
        c == 0 ==> (m >> 1) | (c << 7) == m / 2,
{
}

/// A byte reinterpreted as a signed offset and widened to a word.
pub proof fn lemma_sign_extend(v: u8)
    by (bit_vector)
    ensures
        v >= 128 ==> (v as i8) as u16 == (v as u16) + 0xFF00u16,
        v < 128 ==> (v as i8) as u16 == v as u16,
{
}

/// Updating the zero and negative flags twice for the same result changes nothing more.
pub proof fn lemma_zn_idempotent(status: u8, v: u8)
    by (bit_vector)
    ensures
        zn(zn(status, v), v) == zn(status, v),
{
}

} // verus!
