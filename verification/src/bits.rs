//! Byte and word helpers shared by every instruction: forming a 16-bit pair
//! from two bytes, taking a word apart again, and reading or writing one bit.

use vstd::prelude::*;

verus! {

/// The word whose high byte is `high` and whose low byte is `low`.
pub open spec fn spec_concatenate(high: u8, low: u8) -> u16 {
    (high as int * 256 + low as int) as u16
}

/// The high byte of `n`.
pub open spec fn spec_upper_eight_bits(n: u16) -> u8 {
    (n as int / 256) as u8
}

/// The low byte of `n`.
pub open spec fn spec_lower_eight_bits(n: u16) -> u8 {
    (n as int % 256) as u8
}

/// The value of bit `bit` in a byte: 1 for bit 0, 128 for bit 7.
pub open spec fn bit_weight(bit: u8) -> int {
    if bit == 0 {
        1
    } else if bit == 1 {
        2
    } else if bit == 2 {
        4
    } else if bit == 3 {
        8
    } else if bit == 4 {
        16
    } else if bit == 5 {
        32
    } else if bit == 6 {
        64
    } else {
        128
    }
}

/// Whether bit `bit` of `n` is set, counting from the least significant bit:
/// whether `n` divided by the weight of the bit is odd.
pub open spec fn spec_read_bit(n: u8, bit: u8) -> bool {
    if bit == 0 {
        n % 2 == 1
    } else if bit == 1 {
        n / 2 % 2 == 1
    } else if bit == 2 {
        n / 4 % 2 == 1
    } else if bit == 3 {
        n / 8 % 2 == 1
    } else if bit == 4 {
        n / 16 % 2 == 1
    } else if bit == 5 {
        n / 32 % 2 == 1
    } else if bit == 6 {
        n / 64 % 2 == 1
    } else {
        n / 128 % 2 == 1
    }
}

/// `n` with bit `bit` set to `value` and every other bit as it was.
pub open spec fn spec_write_bit(n: u8, bit: u8, value: bool) -> u8 {
    if spec_read_bit(n, bit) == value {
        n
    } else if value {
        (n + bit_weight(bit)) as u8
    } else {
        (n - bit_weight(bit)) as u8
    }
}

/// Joins two bytes into a word, `high` first.
pub fn concatenate(high: u8, low: u8) -> (word: u16)
    ensures
        word == spec_concatenate(high, low),
        word == high * 256 + low,
{
    let h: u16 = high as u16;
    let l: u16 = low as u16;
    assert((h << 8) + l == h * 256 + l) by (bit_vector)
        requires
            h < 256,
            l < 256,
    ;
    (h << 8) + l
}

/// The eight most significant bits of `n`.
pub fn upper_eight_bits(n: u16) -> (byte: u8)
    ensures
        byte == spec_upper_eight_bits(n),
        byte == n / 256,
{
    assert(n >> 8 == n / 256) by (bit_vector);
    (n >> 8) as u8
}

/// The eight least significant bits of `n`.
pub fn lower_eight_bits(n: u16) -> (byte: u8)
    ensures
        byte == spec_lower_eight_bits(n),
        byte == n % 256,
{
    (n % 256) as u8
}

/// Whether bit `bit` of `n` is set.
pub fn read_bit(n: u8, bit: u8) -> (set: bool)
    requires
        bit <= 7,
    ensures
        set == spec_read_bit(n, bit),
{
    assert((n & (1u8 << bit) == (1u8 << bit)) == spec_read_bit(n, bit)) by (bit_vector)
        requires
            bit <= 7,
    ;
    n & (1 << bit) == (1 << bit)
}

/// `byte` with bit `bit` set to `value`.
pub fn write_bit(byte: u8, bit: u8, value: bool) -> (written: u8)
    requires
        bit <= 7,
    ensures
        written == spec_write_bit(byte, bit, value),
{
    assert((byte | (1u8 << bit)) == spec_write_bit(byte, bit, true)
        && (byte & !(1u8 << bit)) == spec_write_bit(byte, bit, false))
        by (bit_vector)
        requires
            bit <= 7,
    ;
    if value {
        byte | (1 << bit)
    } else {
        byte & !(1 << bit)
    }
}

/// A bit that was written reads back as written, and every other bit reads
/// as it did before.
pub proof fn lemma_write_then_read_bit(n: u8, bit: u8, value: bool, other: u8)
    requires
        bit <= 7,
        other <= 7,
    ensures
        spec_read_bit(spec_write_bit(n, bit, value), bit) == value,
        other != bit ==> spec_read_bit(spec_write_bit(n, bit, value), other) == spec_read_bit(
            n,
            other,
        ),
{
    assert(spec_read_bit(spec_write_bit(n, bit, value), bit) == value && (other != bit
        ==> spec_read_bit(spec_write_bit(n, bit, value), other) == spec_read_bit(n, other)))
        by (bit_vector)
        requires
            bit <= 7,
            other <= 7,
    ;
}

/// A word is the pair of its two bytes, and a pair gives its two bytes back.
pub proof fn lemma_split_then_join(n: u16, high: u8, low: u8)
    ensures
        spec_concatenate(spec_upper_eight_bits(n), spec_lower_eight_bits(n)) == n,
        spec_upper_eight_bits(spec_concatenate(high, low)) == high,
        spec_lower_eight_bits(spec_concatenate(high, low)) == low,
{
}

} // verus!
