//! Bit-field arithmetic on single bytes.

use vstd::prelude::*;
use vstd::arithmetic::power2::{pow2, lemma2_to64};
use vstd::bits::{low_bits_mask, lemma_u8_shr_is_div, lemma_u8_low_bits_mask_is_mod,
    lemma_low_bits_mask_values};

verus! {

/// The place value of bit `bit` of a byte: two to the power `bit`. Written
/// as a table so that it is a literal wherever `bit` is one; beyond a byte
/// it stays at 256.
pub open spec fn place_value(bit: int) -> int {
    if bit <= 0 {
        1
    } else if bit == 1 {
        2
    } else if bit == 2 {
        4
    } else if bit == 3 {
        8
    } else if bit == 4 {
        16
    } else if bit == 5 {
        32
    } else if bit == 6 {
        64
    } else if bit == 7 {
        128
    } else {
        256
    }
}

/// The unsigned number written in bits `low..=high` of `byte`, bit `low`
/// being its least significant digit.
pub open spec fn bit_field(byte: u8, low: u8, high: u8) -> int
    recommends
        low <= high <= 7,
{
    (byte as int / place_value(low as int)) % place_value(high - low + 1)
}

/// Within a byte, and one place beyond it, `place_value` is the power of
/// two.
pub proof fn lemma_place_value_is_pow2(bit: nat)
    ensures
        bit <= 8 ==> place_value(bit as int) == pow2(bit),
{
    lemma2_to64();
}

/// The 16-bit number whose upper eight bits are `high` and whose lower
/// eight bits are `low`.
pub open spec fn word_of(high: u8, low: u8) -> int {
    high as int * 256 + low as int
}

/// Reads bits `low..=high` of `operand`, shifted down so that bit `low`
/// lands on bit 0.
pub fn get_bits_inclusive(operand: u8, low: u8, high: u8) -> (field: u8)
    requires
        low <= high <= 7,
    ensures
        field as int == bit_field(operand, low, high),
{
    let width: u8 = high - low + 1;
    let shifted: u8 = operand >> low;
    proof {
        lemma_place_value_is_pow2(low as nat);
        lemma_place_value_is_pow2(width as nat);
        lemma_u8_shr_is_div(operand, low);
        assert(shifted as int == operand as int / place_value(low as int));
    }
    if width >= 8 {
        shifted
    } else {
        proof {
            lemma_mask_is_low_bits(width);
            lemma_u8_low_bits_mask_is_mod(shifted, width as nat);
        }
        let mask: u8 = (1u8 << width) - 1;
        assert(mask == low_bits_mask(width as nat) as u8);
        assert(shifted & mask == shifted % (pow2(width as nat) as u8));
        shifted & mask
    }
}

/// `(1 << width) - 1` is the byte whose lowest `width` bits are set.
proof fn lemma_mask_is_low_bits(width: u8)
    requires
        width < 8,
    ensures
        (1u8 << width) >= 1,
        ((1u8 << width) - 1) as u8 == low_bits_mask(width as nat) as u8,
        low_bits_mask(width as nat) < 256,
{
    lemma_low_bits_mask_values();
    lemma2_to64();
    assert(width < 8 ==> (1u8 << width) >= 1) by (bit_vector);
    assert(width == 0 ==> (1u8 << width) == 1) by (bit_vector);
    assert(width == 1 ==> (1u8 << width) == 2) by (bit_vector);
    assert(width == 2 ==> (1u8 << width) == 4) by (bit_vector);
    assert(width == 3 ==> (1u8 << width) == 8) by (bit_vector);
    assert(width == 4 ==> (1u8 << width) == 16) by (bit_vector);
    assert(width == 5 ==> (1u8 << width) == 32) by (bit_vector);
    assert(width == 6 ==> (1u8 << width) == 64) by (bit_vector);
    assert(width == 7 ==> (1u8 << width) == 128) by (bit_vector);
}

/// Joins two bytes into one 16-bit word, `high` above `low`.
pub fn combine_u8s(high: u8, low: u8) -> (word: u16)
    ensures
        word as int == word_of(high, low),
{
    let upper: u16 = (high as u16) << 8;
    let lower: u16 = low as u16;
    assert((upper | lower) == high as u16 * 256 + lower) by (bit_vector)
        requires
            upper == (high as u16) << 8,
            lower == low as u16,
    ;
    upper | lower
}

/// The ranges 6-7, 3-5 and 0-2 cover the eight bits of a byte, each bit
/// once: the three fields, put back at their places, give the byte again.
/// The ranges 4-5 and 3-3 cover the range 3-5 in the same way.
pub proof fn lemma_fixed_ranges_partition_byte(byte: u8)
    ensures
        bit_field(byte, 6, 7) * 64 + bit_field(byte, 3, 5) * 8 + bit_field(byte, 0, 2) == byte,
        bit_field(byte, 4, 5) * 2 + bit_field(byte, 3, 3) == bit_field(byte, 3, 5),
        0 <= bit_field(byte, 6, 7) <= 3,
        0 <= bit_field(byte, 3, 5) <= 7,
        0 <= bit_field(byte, 0, 2) <= 7,
        0 <= bit_field(byte, 4, 5) <= 3,
        0 <= bit_field(byte, 3, 3) <= 1,
{
    let x: u8 = (byte / 64) % 4;
    let y: u8 = (byte / 8) % 8;
    let z: u8 = (byte / 1) % 8;
    let p: u8 = (byte / 16) % 4;
    let q: u8 = (byte / 8) % 2;
    assert(x == bit_field(byte, 6, 7));
    assert(y == bit_field(byte, 3, 5));
    assert(z == bit_field(byte, 0, 2));
    assert(p == bit_field(byte, 4, 5));
    assert(q == bit_field(byte, 3, 3));
    assert(x * 64 + y * 8 + z == byte && p * 2 + q == y) by (bit_vector)
        requires
            x == (byte / 64) % 4,
            y == (byte / 8) % 8,
            z == (byte / 1) % 8,
            p == (byte / 16) % 4,
            q == (byte / 8) % 2,
    ;
}

} // verus!
