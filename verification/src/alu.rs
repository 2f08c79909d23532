//! Arithmetic and logic on bytes and words, with the flags that each
//! operation leaves.
//!
//! The half-carry flag reports a carry or borrow between bit 3 and bit 4 (bit
//! 11 and bit 12 for the word additions), the carry flag one out of the top
//! bit.

use vstd::prelude::*;
use crate::isa::{AluOp, ShiftOp};
use crate::registers::{
    flags_byte, lemma_flags_byte, lemma_written_flag_clears_unused_bits, FlagBit, Registers,
};

verus! {

/// 1 if the carry flag is set, else 0.
pub open spec fn carry_in(registers: Registers) -> int {
    if registers.spec_read_flag(FlagBit::C) {
        1
    } else {
        0
    }
}

/// The registers after `value` and `carry` (0 or 1) were added to the
/// accumulator.
pub open spec fn spec_add_to_accumulator(registers: Registers, value: u8, carry: int) -> Registers {
    let sum = registers.a + value + carry;
    Registers { a: (sum % 256) as u8, ..registers }.spec_write_flags(
        sum % 256 == 0,
        false,
        registers.a % 16 + value % 16 + carry > 15,
        sum > 255,
    )
}

/// The registers after `value` and `carry` (0 or 1) were subtracted from the
/// accumulator. Where `store` is false the accumulator keeps its value and
/// only the flags change, as in a comparison.
pub open spec fn spec_subtract_from_accumulator(
    registers: Registers,
    value: u8,
    carry: int,
    store: bool,
) -> Registers {
    let difference = registers.a - value - carry;
    Registers {
        a: if store {
            (difference % 256) as u8
        } else {
            registers.a
        },
        ..registers
    }.spec_write_flags(
        difference % 256 == 0,
        true,
        registers.a % 16 < value % 16 + carry,
        difference < 0,
    )
}

/// The registers after a bitwise operation left `result` in the
/// accumulator; `half_carry` is set by `AND` alone.
pub open spec fn spec_store_logic(registers: Registers, result: u8, half_carry: bool) -> Registers {
    Registers { a: result, ..registers }.spec_write_flags(result == 0, false, half_carry, false)
}

/// The registers after an operation between the accumulator and `value`.
pub open spec fn spec_alu(op: AluOp, registers: Registers, value: u8) -> Registers {
    match op {
        AluOp::Add => spec_add_to_accumulator(registers, value, 0),
        AluOp::Adc => spec_add_to_accumulator(registers, value, carry_in(registers)),
        AluOp::Sub => spec_subtract_from_accumulator(registers, value, 0, true),
        AluOp::Sbc => spec_subtract_from_accumulator(registers, value, carry_in(registers), true),
        AluOp::And => spec_store_logic(registers, registers.a & value, true),
        AluOp::Xor => spec_store_logic(registers, registers.a ^ value, false),
        AluOp::Or => spec_store_logic(registers, registers.a | value, false),
        AluOp::Cp => spec_subtract_from_accumulator(registers, value, 0, false),
    }
}

/// `value` plus one, wrapping.
pub open spec fn spec_increment(value: u8) -> u8 {
    ((value + 1) % 256) as u8
}

/// `value` minus one, wrapping.
pub open spec fn spec_decrement(value: u8) -> u8 {
    ((value - 1) % 256) as u8
}

/// The flags after `INC` of a byte that held `value`: carry is kept.
pub open spec fn spec_increment_flags(registers: Registers, value: u8) -> Registers {
    registers.spec_write_flag(FlagBit::Z, value == 255).spec_write_flag(
        FlagBit::N,
        false,
    ).spec_write_flag(FlagBit::H, value % 16 == 15)
}

/// The flags after `DEC` of a byte that held `value`: carry is kept.
pub open spec fn spec_decrement_flags(registers: Registers, value: u8) -> Registers {
    registers.spec_write_flag(FlagBit::Z, value == 1).spec_write_flag(
        FlagBit::N,
        true,
    ).spec_write_flag(FlagBit::H, value % 16 == 0)
}

/// The byte that a rotation or shift makes of `value`, given the carry flag
/// before it.
pub open spec fn spec_shift_result(op: ShiftOp, value: u8, carry: bool) -> u8 {
    let v = value as int;
    let c: int = if carry {
        1
    } else {
        0
    };
    (match op {
        ShiftOp::Rlc => (2 * v) % 256 + v / 128,
        ShiftOp::Rrc => v / 2 + 128 * (v % 2),
        ShiftOp::Rl => (2 * v) % 256 + c,
        ShiftOp::Rr => v / 2 + 128 * c,
        ShiftOp::Sla => (2 * v) % 256,
        ShiftOp::Sra => v / 2 + 128 * (v / 128),
        ShiftOp::Swap => 16 * (v % 16) + v / 16,
        ShiftOp::Srl => v / 2,
    }) as u8
}

/// The carry flag after a rotation or shift of `value`: the bit that left
/// the byte; none for `SWAP`.
pub open spec fn spec_shift_carry(op: ShiftOp, value: u8) -> bool {
    match op {
        ShiftOp::Rlc | ShiftOp::Rl | ShiftOp::Sla => value >= 128,
        ShiftOp::Rrc | ShiftOp::Rr | ShiftOp::Sra | ShiftOp::Srl => value % 2 == 1,
        ShiftOp::Swap => false,
    }
}

/// The flags after a rotation or shift of `value` in the secondary table.
pub open spec fn spec_shift_flags(op: ShiftOp, registers: Registers, value: u8) -> Registers {
    registers.spec_write_flags(
        spec_shift_result(op, value, registers.spec_read_flag(FlagBit::C)) == 0,
        false,
        false,
        spec_shift_carry(op, value),
    )
}

/// The registers after a rotation of the accumulator in the primary table:
/// as in the secondary table, but the zero flag is always cleared.
pub open spec fn spec_rotate_accumulator(op: ShiftOp, registers: Registers) -> Registers {
    Registers {
        a: spec_shift_result(op, registers.a, registers.spec_read_flag(FlagBit::C)),
        ..registers
    }.spec_write_flags(false, false, false, spec_shift_carry(op, registers.a))
}

/// The registers after `DAA`, which turns the accumulator back into two
/// decimal digits after an addition or subtraction of such bytes.
pub open spec fn spec_decimal_adjust(registers: Registers) -> Registers {
    let a = registers.a as int;
    let half = registers.spec_read_flag(FlagBit::H);
    let carry = registers.spec_read_flag(FlagBit::C);
    if registers.spec_read_flag(FlagBit::N) {
        let low: int = if half {
            6
        } else {
            0
        };
        let high: int = if carry {
            0x60
        } else {
            0
        };
        let result = (a - low - high) % 256;
        Registers { a: result as u8, ..registers }.spec_write_flags(
            result == 0,
            true,
            false,
            carry,
        )
    } else {
        let low: int = if half || a % 16 > 9 {
            6
        } else {
            0
        };
        let high: int = if carry || a > 0x99 {
            0x60
        } else {
            0
        };
        let result = (a + low + high) % 256;
        Registers { a: result as u8, ..registers }.spec_write_flags(
            result == 0,
            false,
            false,
            carry || a > 0x99,
        )
    }
}

/// The accumulator with every bit inverted, and the flags after `CPL`.
pub open spec fn spec_complement(registers: Registers) -> Registers {
    Registers { a: (255 - registers.a) as u8, ..registers }.spec_write_flag(
        FlagBit::N,
        true,
    ).spec_write_flag(FlagBit::H, true)
}

/// The flags after `SCF`, or after `CCF` where `carry` is the inverse of the
/// carry flag before.
pub open spec fn spec_write_carry(registers: Registers, carry: bool) -> Registers {
    registers.spec_write_flag(FlagBit::N, false).spec_write_flag(FlagBit::H, false).spec_write_flag(
        FlagBit::C,
        carry,
    )
}

/// The sum of two words, wrapping.
pub open spec fn spec_add_words(left: u16, right: u16) -> u16 {
    ((left + right) % 0x10000) as u16
}

/// The flags after `ADD HL,rr` of the words `left` and `right`: zero is kept.
pub open spec fn spec_add_words_flags(registers: Registers, left: u16, right: u16) -> Registers {
    registers.spec_write_flag(FlagBit::N, false).spec_write_flag(
        FlagBit::H,
        left % 0x1000 + right % 0x1000 > 0xFFF,
    ).spec_write_flag(FlagBit::C, left + right > 0xFFFF)
}

/// The value of a byte read as a signed number.
pub open spec fn sign_extend(byte: u8) -> int {
    if byte >= 128 {
        byte - 256
    } else {
        byte as int
    }
}

/// `base` moved by the signed `offset`, wrapping at both ends of the
/// address space.
pub open spec fn spec_offset_word(base: u16, offset: u8) -> u16 {
    ((base + sign_extend(offset)) % 0x10000) as u16
}

/// The flags after the stack pointer `base` and the signed `offset` were
/// added: half-carry and carry are those of the low byte.
pub open spec fn spec_offset_flags(registers: Registers, base: u16, offset: u8) -> Registers {
    registers.spec_write_flags(
        false,
        false,
        base % 16 + offset % 16 > 15,
        base % 256 + offset > 255,
    )
}

/// Adds `value` and `carry` to the accumulator.
fn add_to_accumulator(registers: &mut Registers, value: u8, carry: u8)
    requires
        carry <= 1,
    ensures
        *final(registers) == spec_add_to_accumulator(*old(registers), value, carry as int),
{
    let a: u8 = registers.a;
    let sum: u16 = a as u16 + value as u16 + carry as u16;
    registers.a = (sum % 256) as u8;
    registers.write_flags(sum % 256 == 0, false, a % 16 + value % 16 + carry > 15, sum > 255);
}

/// Subtracts `value` and `carry` from the accumulator, or only compares
/// where `store` is false.
fn subtract_from_accumulator(registers: &mut Registers, value: u8, carry: u8, store: bool)
    requires
        carry <= 1,
    ensures
        *final(registers) == spec_subtract_from_accumulator(
            *old(registers),
            value,
            carry as int,
            store,
        ),
{
    let a: u8 = registers.a;
    let difference: u16 = (256 + a as u16 - value as u16 - carry as u16) % 256;
    assert(difference == (a - value - carry) % 256);
    if store {
        registers.a = difference as u8;
    }
    registers.write_flags(
        difference == 0,
        true,
        a % 16 < value % 16 + carry,
        (a as u16) < value as u16 + carry as u16,
    );
}

/// Stores the result of a bitwise operation in the accumulator.
fn store_logic(registers: &mut Registers, result: u8, half_carry: bool)
    ensures
        *final(registers) == spec_store_logic(*old(registers), result, half_carry),
{
    registers.a = result;
    registers.write_flags(result == 0, false, half_carry, false);
}

/// Performs an operation between the accumulator and `value`.
pub fn alu(op: AluOp, registers: &mut Registers, value: u8)
    ensures
        *final(registers) == spec_alu(op, *old(registers), value),
{
    let a: u8 = registers.a;
    let carry: u8 = if registers.read_flag(FlagBit::C) {
        1
    } else {
        0
    };
    match op {
        AluOp::Add => add_to_accumulator(registers, value, 0),
        AluOp::Adc => add_to_accumulator(registers, value, carry),
        AluOp::Sub => subtract_from_accumulator(registers, value, 0, true),
        AluOp::Sbc => subtract_from_accumulator(registers, value, carry, true),
        AluOp::And => store_logic(registers, a & value, true),
        AluOp::Xor => store_logic(registers, a ^ value, false),
        AluOp::Or => store_logic(registers, a | value, false),
        AluOp::Cp => subtract_from_accumulator(registers, value, 0, false),
    }
}

/// Adds one to `value` and writes the flags of `INC`.
pub fn increment(registers: &mut Registers, value: u8) -> (result: u8)
    ensures
        result == spec_increment(value),
        *final(registers) == spec_increment_flags(*old(registers), value),
{
    registers.write_flag(FlagBit::Z, value == 255);
    registers.write_flag(FlagBit::N, false);
    registers.write_flag(FlagBit::H, value % 16 == 15);
    value.wrapping_add(1)
}

/// Subtracts one from `value` and writes the flags of `DEC`.
pub fn decrement(registers: &mut Registers, value: u8) -> (result: u8)
    ensures
        result == spec_decrement(value),
        *final(registers) == spec_decrement_flags(*old(registers), value),
{
    registers.write_flag(FlagBit::Z, value == 1);
    registers.write_flag(FlagBit::N, true);
    registers.write_flag(FlagBit::H, value % 16 == 0);
    value.wrapping_sub(1)
}

/// Rotates or shifts `value`, given the carry flag before.
pub fn shift_result(op: ShiftOp, value: u8, carry: bool) -> (result: u8)
    ensures
        result == spec_shift_result(op, value, carry),
{
    let c: u8 = if carry {
        1
    } else {
        0
    };
    assert(((value << 1) | (value >> 7)) == spec_shift_result(ShiftOp::Rlc, value, carry) && ((value
        >> 1) | (value << 7)) == spec_shift_result(ShiftOp::Rrc, value, carry) && ((value << 1)
        | c) == spec_shift_result(ShiftOp::Rl, value, carry) && ((value >> 1) | (c << 7))
        == spec_shift_result(ShiftOp::Rr, value, carry) && (value << 1) == spec_shift_result(
        ShiftOp::Sla,
        value,
        carry,
    ) && ((value >> 1) | (value & 0x80)) == spec_shift_result(ShiftOp::Sra, value, carry) && ((value
        << 4) | (value >> 4)) == spec_shift_result(ShiftOp::Swap, value, carry) && (value >> 1)
        == spec_shift_result(ShiftOp::Srl, value, carry)) by (bit_vector)
        requires
            c == (if carry {
                1u8
            } else {
                0u8
            }),
    ;
    match op {
        ShiftOp::Rlc => (value << 1) | (value >> 7),
        ShiftOp::Rrc => (value >> 1) | (value << 7),
        ShiftOp::Rl => (value << 1) | c,
        ShiftOp::Rr => (value >> 1) | (c << 7),
        ShiftOp::Sla => value << 1,
        ShiftOp::Sra => (value >> 1) | (value & 0x80),
        ShiftOp::Swap => (value << 4) | (value >> 4),
        ShiftOp::Srl => value >> 1,
    }
}

/// The bit that a rotation or shift moves out of `value`.
pub fn shift_carry(op: ShiftOp, value: u8) -> (carry: bool)
    ensures
        carry == spec_shift_carry(op, value),
{
    match op {
        ShiftOp::Rlc | ShiftOp::Rl | ShiftOp::Sla => value >= 128,
        ShiftOp::Rrc | ShiftOp::Rr | ShiftOp::Sra | ShiftOp::Srl => value % 2 == 1,
        ShiftOp::Swap => false,
    }
}

/// Rotates or shifts `value` and writes the flags of the secondary table.
pub fn shift(op: ShiftOp, registers: &mut Registers, value: u8) -> (result: u8)
    ensures
        result == spec_shift_result(op, value, old(registers).spec_read_flag(FlagBit::C)),
        *final(registers) == spec_shift_flags(op, *old(registers), value),
{
    let result: u8 = shift_result(op, value, registers.read_flag(FlagBit::C));
    registers.write_flags(result == 0, false, false, shift_carry(op, value));
    result
}

/// Rotates the accumulator as the primary table does.
pub fn rotate_accumulator(op: ShiftOp, registers: &mut Registers)
    ensures
        *final(registers) == spec_rotate_accumulator(op, *old(registers)),
{
    let a: u8 = registers.a;
    registers.a = shift_result(op, a, registers.read_flag(FlagBit::C));
    registers.write_flags(false, false, false, shift_carry(op, a));
}

/// Adjusts the accumulator to two decimal digits.
pub fn decimal_adjust(registers: &mut Registers)
    ensures
        *final(registers) == spec_decimal_adjust(*old(registers)),
{
    let a: u8 = registers.a;
    let half: bool = registers.read_flag(FlagBit::H);
    let carry: bool = registers.read_flag(FlagBit::C);
    if registers.read_flag(FlagBit::N) {
        let mut adjustment: u16 = 0;
        if half {
            adjustment = adjustment + 0x06;
        }
        if carry {
            adjustment = adjustment + 0x60;
        }
        let result: u16 = (256 + a as u16 - adjustment) % 256;
        registers.a = result as u8;
        registers.write_flags(result == 0, true, false, carry);
    } else {
        let mut adjustment: u16 = 0;
        if half || a % 16 > 9 {
            adjustment = adjustment + 0x06;
        }
        if carry || a > 0x99 {
            adjustment = adjustment + 0x60;
        }
        let result: u16 = (a as u16 + adjustment) % 256;
        registers.a = result as u8;
        registers.write_flags(result == 0, false, false, carry || a > 0x99);
    }
}

/// Inverts the accumulator.
pub fn complement(registers: &mut Registers)
    ensures
        *final(registers) == spec_complement(*old(registers)),
{
    registers.a = 255 - registers.a;
    registers.write_flag(FlagBit::N, true);
    registers.write_flag(FlagBit::H, true);
}

/// Writes the carry flag and clears subtract and half-carry.
pub fn write_carry(registers: &mut Registers, carry: bool)
    ensures
        *final(registers) == spec_write_carry(*old(registers), carry),
{
    registers.write_flag(FlagBit::N, false);
    registers.write_flag(FlagBit::H, false);
    registers.write_flag(FlagBit::C, carry);
}

/// Adds two words and writes the flags of `ADD HL,rr`.
pub fn add_words(registers: &mut Registers, left: u16, right: u16) -> (sum: u16)
    ensures
        sum == spec_add_words(left, right),
        *final(registers) == spec_add_words_flags(*old(registers), left, right),
{
    let wide: u32 = left as u32 + right as u32;
    registers.write_flag(FlagBit::N, false);
    registers.write_flag(FlagBit::H, left % 0x1000 + right % 0x1000 > 0xFFF);
    registers.write_flag(FlagBit::C, wide > 0xFFFF);
    (wide % 0x10000) as u16
}

/// Moves `base` by the signed `offset`.
pub fn offset_word(base: u16, offset: u8) -> (moved: u16)
    ensures
        moved == spec_offset_word(base, offset),
{
    let wide: u32 = if offset >= 128 {
        0x10000 + base as u32 + offset as u32 - 256
    } else {
        base as u32 + offset as u32
    };
    (wide % 0x10000) as u16
}

/// Moves the stack pointer value `base` by the signed `offset` and writes
/// the flags of `ADD SP,r8`.
pub fn offset_stack_pointer(registers: &mut Registers, base: u16, offset: u8) -> (moved: u16)
    ensures
        moved == spec_offset_word(base, offset),
        *final(registers) == spec_offset_flags(*old(registers), base, offset),
{
    registers.write_flags(
        false,
        false,
        base % 16 + offset as u16 % 16 > 15,
        base % 256 + offset as u16 > 255,
    );
    offset_word(base, offset)
}

/// Every operation on bytes that writes a flag leaves the low four bits of
/// the flags byte zero.
pub proof fn lemma_byte_operations_clear_unused_flag_bits(
    registers: Registers,
    value: u8,
    op: AluOp,
    shift_op: ShiftOp,
    carry: bool,
)
    ensures
        spec_alu(op, registers, value).f % 16 == 0,
        spec_increment_flags(registers, value).f % 16 == 0,
        spec_decrement_flags(registers, value).f % 16 == 0,
        spec_shift_flags(shift_op, registers, value).f % 16 == 0,
        spec_rotate_accumulator(shift_op, registers).f % 16 == 0,
        spec_decimal_adjust(registers).f % 16 == 0,
        spec_complement(registers).f % 16 == 0,
        spec_write_carry(registers, carry).f % 16 == 0,
{
    assert forall|z: bool, n: bool, h: bool, c: bool| #[trigger] flags_byte(z, n, h, c) % 16 == 0 by {
        lemma_flags_byte(z, n, h, c);
    }
    let zero = registers.spec_write_flag(FlagBit::Z, value == 255).spec_write_flag(
        FlagBit::N,
        false,
    );
    lemma_written_flag_clears_unused_bits(zero, FlagBit::H, value % 16 == 15);
    let one = registers.spec_write_flag(FlagBit::Z, value == 1).spec_write_flag(FlagBit::N, true);
    lemma_written_flag_clears_unused_bits(one, FlagBit::H, value % 16 == 0);
    let inverted = Registers { a: (255 - registers.a) as u8, ..registers }.spec_write_flag(
        FlagBit::N,
        true,
    );
    lemma_written_flag_clears_unused_bits(inverted, FlagBit::H, true);
    let cleared = registers.spec_write_flag(FlagBit::N, false).spec_write_flag(FlagBit::H, false);
    lemma_written_flag_clears_unused_bits(cleared, FlagBit::C, carry);
}

/// Every operation on words that writes a flag leaves the low four bits of
/// the flags byte zero.
pub proof fn lemma_word_operations_clear_unused_flag_bits(
    registers: Registers,
    left: u16,
    right: u16,
    offset: u8,
)
    ensures
        spec_add_words_flags(registers, left, right).f % 16 == 0,
        spec_offset_flags(registers, left, offset).f % 16 == 0,
{
    lemma_flags_byte(false, false, left % 16 + offset % 16 > 15, left % 256 + offset > 255);
    let cleared = registers.spec_write_flag(FlagBit::N, false).spec_write_flag(
        FlagBit::H,
        left % 0x1000 + right % 0x1000 > 0xFFF,
    );
    lemma_written_flag_clears_unused_bits(cleared, FlagBit::C, left + right > 0xFFFF);
}

} // verus!
