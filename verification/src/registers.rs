//! The register file: eight byte registers, the flags byte, the program
//! counter and the stack pointer.
//!
//! Register pairs are computed, never stored: the first register named is the
//! high byte. Only the top four bits of the flags byte carry a flag, and every
//! operation that writes a flag leaves the low four bits zero.

use vstd::prelude::*;
use crate::bits::{
    concatenate, lower_eight_bits, read_bit, spec_concatenate, spec_lower_eight_bits,
    spec_read_bit, spec_upper_eight_bits, spec_write_bit, upper_eight_bits, write_bit,
};
use crate::isa::{Condition, Pair, StackPair};

verus! {

/// One of the four flags.
#[derive(Clone, Copy, Debug, PartialEq, Eq, Structural)]
pub enum FlagBit {
    /// Zero: the result was zero.
    Z,
    /// Subtract: the last operation was a subtraction.
    N,
    /// Half-carry: a carry or borrow left the low nibble.
    H,
    /// Carry: a carry or borrow left the byte.
    C,
}

/// The position of a flag in the flags byte: 7 for Zero down to 4 for Carry.
pub open spec fn flag_position(bit: FlagBit) -> u8 {
    match bit {
        FlagBit::Z => 7,
        FlagBit::N => 6,
        FlagBit::H => 5,
        FlagBit::C => 4,
    }
}

/// The flags byte `f` with the bit at `position` set to `value`, the other
/// flags kept and the low four bits cleared.
pub open spec fn spec_write_flag_byte(f: u8, position: u8, value: bool) -> u8 {
    let written = spec_write_bit(f, position, value);
    (written - written % 16) as u8
}

/// The flags byte that holds exactly these four flags.
pub open spec fn flags_byte(zero: bool, subtract: bool, half_carry: bool, carry: bool) -> u8 {
    ((if zero {
        128int
    } else {
        0
    }) + (if subtract {
        64int
    } else {
        0
    }) + (if half_carry {
        32int
    } else {
        0
    }) + (if carry {
        16int
    } else {
        0
    })) as u8
}

/// The state that instructions see and change.
#[derive(Clone, Copy, Debug, PartialEq, Eq, Structural)]
pub struct Registers {
    pub a: u8,
    pub b: u8,
    pub c: u8,
    pub d: u8,
    pub e: u8,
    pub f: u8,
    pub g: u8,
    pub h: u8,
    pub l: u8,
    pub program_counter: u16,
    pub stack_pointer: u16,
}

impl Default for Registers {
    /// The register file at reset: every field zero, so that execution
    /// starts at address 0.
    fn default() -> (registers: Registers)
        ensures
            registers == (Registers {
                a: 0,
                b: 0,
                c: 0,
                d: 0,
                e: 0,
                f: 0,
                g: 0,
                h: 0,
                l: 0,
                program_counter: 0,
                stack_pointer: 0,
            }),
    {
        Registers {
            a: 0,
            b: 0,
            c: 0,
            d: 0,
            e: 0,
            f: 0,
            g: 0,
            h: 0,
            l: 0,
            program_counter: 0,
            stack_pointer: 0,
        }
    }
}

impl Registers {
    /// Whether the flag `bit` is set.
    pub open spec fn spec_read_flag(self, bit: FlagBit) -> bool {
        spec_read_bit(self.f, flag_position(bit))
    }

    /// These registers after the flag `bit` was written.
    pub open spec fn spec_write_flag(self, bit: FlagBit, value: bool) -> Registers {
        Registers { f: spec_write_flag_byte(self.f, flag_position(bit), value), ..self }
    }

    /// These registers after all four flags were written.
    pub open spec fn spec_write_flags(
        self,
        zero: bool,
        subtract: bool,
        half_carry: bool,
        carry: bool,
    ) -> Registers {
        Registers { f: flags_byte(zero, subtract, half_carry, carry), ..self }
    }

    /// The value of a register pair, high byte first.
    pub open spec fn spec_pair(self, pair: Pair) -> u16 {
        match pair {
            Pair::BC => spec_concatenate(self.b, self.c),
            Pair::DE => spec_concatenate(self.d, self.e),
            Pair::HL => spec_concatenate(self.h, self.l),
            Pair::SP => self.stack_pointer,
        }
    }

    /// These registers after `value` was stored in a register pair.
    pub open spec fn spec_set_pair(self, pair: Pair, value: u16) -> Registers {
        let high = spec_upper_eight_bits(value);
        let low = spec_lower_eight_bits(value);
        match pair {
            Pair::BC => Registers { b: high, c: low, ..self },
            Pair::DE => Registers { d: high, e: low, ..self },
            Pair::HL => Registers { h: high, l: low, ..self },
            Pair::SP => Registers { stack_pointer: value, ..self },
        }
    }

    /// The word that `PUSH` stores for a stack operand.
    pub open spec fn spec_stack_pair(self, pair: StackPair) -> u16 {
        match pair {
            StackPair::BC => spec_concatenate(self.b, self.c),
            StackPair::DE => spec_concatenate(self.d, self.e),
            StackPair::HL => spec_concatenate(self.h, self.l),
            StackPair::AF => spec_concatenate(self.a, self.f),
        }
    }

    /// These registers after `POP` loaded `value` into a stack operand. The
    /// flags byte takes only the top four bits of the low byte.
    pub open spec fn spec_set_stack_pair(self, pair: StackPair, value: u16) -> Registers {
        let high = spec_upper_eight_bits(value);
        let low = spec_lower_eight_bits(value);
        match pair {
            StackPair::BC => Registers { b: high, c: low, ..self },
            StackPair::DE => Registers { d: high, e: low, ..self },
            StackPair::HL => Registers { h: high, l: low, ..self },
            StackPair::AF => Registers { a: high, f: (low - low % 16) as u8, ..self },
        }
    }

    /// Whether a branch condition holds of the flags.
    pub open spec fn spec_condition(self, condition: Condition) -> bool {
        match condition {
            Condition::NotZero => !self.spec_read_flag(FlagBit::Z),
            Condition::Zero => self.spec_read_flag(FlagBit::Z),
            Condition::NoCarry => !self.spec_read_flag(FlagBit::C),
            Condition::Carry => self.spec_read_flag(FlagBit::C),
        }
    }

    /// Sets or clears one flag. The other three flags stay as they are, and
    /// the unused low four bits of the flags byte are cleared.
    pub fn write_flag(&mut self, bit: FlagBit, value: bool)
        ensures
            *final(self) == old(self).spec_write_flag(bit, value),
    {
        let written: u8 = match bit {
            FlagBit::Z => write_bit(self.f, 7, value),
            FlagBit::N => write_bit(self.f, 6, value),
            FlagBit::H => write_bit(self.f, 5, value),
            FlagBit::C => write_bit(self.f, 4, value),
        };
        self.f = written - written % 16;
    }

    /// Reads one flag.
    pub fn read_flag(&self, bit: FlagBit) -> (set: bool)
        ensures
            set == self.spec_read_flag(bit),
    {
        match bit {
            FlagBit::Z => read_bit(self.f, 7),
            FlagBit::N => read_bit(self.f, 6),
            FlagBit::H => read_bit(self.f, 5),
            FlagBit::C => read_bit(self.f, 4),
        }
    }

    /// Writes all four flags at once.
    pub fn write_flags(&mut self, zero: bool, subtract: bool, half_carry: bool, carry: bool)
        ensures
            *final(self) == old(self).spec_write_flags(zero, subtract, half_carry, carry),
    {
        let mut f: u8 = 0;
        if zero {
            f = f + 0x80;
        }
        if subtract {
            f = f + 0x40;
        }
        if half_carry {
            f = f + 0x20;
        }
        if carry {
            f = f + 0x10;
        }
        self.f = f;
    }

    /// Reads a register pair.
    pub fn pair(&self, pair: Pair) -> (value: u16)
        ensures
            value == self.spec_pair(pair),
    {
        match pair {
            Pair::BC => concatenate(self.b, self.c),
            Pair::DE => concatenate(self.d, self.e),
            Pair::HL => concatenate(self.h, self.l),
            Pair::SP => self.stack_pointer,
        }
    }

    /// Stores a word in a register pair.
    pub fn set_pair(&mut self, pair: Pair, value: u16)
        ensures
            *final(self) == old(self).spec_set_pair(pair, value),
    {
        match pair {
            Pair::BC => {
                self.b = upper_eight_bits(value);
                self.c = lower_eight_bits(value);
            },
            Pair::DE => {
                self.d = upper_eight_bits(value);
                self.e = lower_eight_bits(value);
            },
            Pair::HL => {
                self.h = upper_eight_bits(value);
                self.l = lower_eight_bits(value);
            },
            Pair::SP => {
                self.stack_pointer = value;
            },
        }
    }

    /// Reads a stack operand.
    pub fn stack_pair(&self, pair: StackPair) -> (value: u16)
        ensures
            value == self.spec_stack_pair(pair),
    {
        match pair {
            StackPair::BC => concatenate(self.b, self.c),
            StackPair::DE => concatenate(self.d, self.e),
            StackPair::HL => concatenate(self.h, self.l),
            StackPair::AF => concatenate(self.a, self.f),
        }
    }

    /// Stores a word in a stack operand.
    pub fn set_stack_pair(&mut self, pair: StackPair, value: u16)
        ensures
            *final(self) == old(self).spec_set_stack_pair(pair, value),
    {
        let high: u8 = upper_eight_bits(value);
        let low: u8 = lower_eight_bits(value);
        match pair {
            StackPair::BC => {
                self.b = high;
                self.c = low;
            },
            StackPair::DE => {
                self.d = high;
                self.e = low;
            },
            StackPair::HL => {
                self.h = high;
                self.l = low;
            },
            StackPair::AF => {
                self.a = high;
                self.f = low - low % 16;
            },
        }
    }

    /// Tests a branch condition.
    pub fn condition(&self, condition: Condition) -> (holds: bool)
        ensures
            holds == self.spec_condition(condition),
    {
        match condition {
            Condition::NotZero => !self.read_flag(FlagBit::Z),
            Condition::Zero => self.read_flag(FlagBit::Z),
            Condition::NoCarry => !self.read_flag(FlagBit::C),
            Condition::Carry => self.read_flag(FlagBit::C),
        }
    }
}

/// A flag that was written reads back as written; the other flags read as
/// before; the low four bits of the flags byte are zero.
pub proof fn lemma_write_then_read_flag(
    registers: Registers,
    bit: FlagBit,
    value: bool,
    other: FlagBit,
)
    ensures
        registers.spec_write_flag(bit, value).spec_read_flag(bit) == value,
        other != bit ==> registers.spec_write_flag(bit, value).spec_read_flag(other)
            == registers.spec_read_flag(other),
        registers.spec_write_flag(bit, value).f % 16 == 0,
{
    let f = registers.f;
    let p = flag_position(bit);
    let q = flag_position(other);
    assert(spec_read_bit(spec_write_flag_byte(f, p, value), p) == value && (q != p
        ==> spec_read_bit(spec_write_flag_byte(f, p, value), q) == spec_read_bit(f, q))
        && spec_write_flag_byte(f, p, value) % 16 == 0) by (bit_vector)
        requires
            4 <= p <= 7,
            4 <= q <= 7,
    ;
}

/// The flags byte built from four flags holds each of them, and nothing in
/// its low four bits.
pub proof fn lemma_flags_byte(zero: bool, subtract: bool, half_carry: bool, carry: bool)
    ensures
        spec_read_bit(flags_byte(zero, subtract, half_carry, carry), 7) == zero,
        spec_read_bit(flags_byte(zero, subtract, half_carry, carry), 6) == subtract,
        spec_read_bit(flags_byte(zero, subtract, half_carry, carry), 5) == half_carry,
        spec_read_bit(flags_byte(zero, subtract, half_carry, carry), 4) == carry,
        flags_byte(zero, subtract, half_carry, carry) % 16 == 0,
{
}

/// Whatever flag is written, and whatever was in the flags byte, the low
/// four bits of the flags byte are zero afterwards.
pub proof fn lemma_written_flag_clears_unused_bits(registers: Registers, bit: FlagBit, value: bool)
    ensures
        registers.spec_write_flag(bit, value).f % 16 == 0,
{
    let written = spec_write_bit(registers.f, flag_position(bit), value);
    assert((written - written % 16) % 16 == 0);
}

} // verus!
