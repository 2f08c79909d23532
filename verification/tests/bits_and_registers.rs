use gameboy_core::bits::{concatenate, lower_eight_bits, read_bit, upper_eight_bits, write_bit};
use gameboy_core::isa::{Condition, Pair, StackPair};
use gameboy_core::registers::{FlagBit, Registers};

#[test]
fn concatenate_puts_the_first_byte_high() {
    assert_eq!(concatenate(0x12, 0x34), 0x1234);
    assert_eq!(concatenate(0x00, 0xFF), 0x00FF);
    assert_eq!(concatenate(0xFF, 0x00), 0xFF00);
    assert_eq!(concatenate(0xFF, 0xFF), 0xFFFF);
}

#[test]
fn a_word_splits_into_its_two_bytes() {
    assert_eq!(upper_eight_bits(0x1234), 0x12);
    assert_eq!(lower_eight_bits(0x1234), 0x34);
    assert_eq!(upper_eight_bits(0x00FF), 0x00);
    assert_eq!(lower_eight_bits(0xFF00), 0x00);
}

#[test]
fn split_then_join_gives_every_word_back() {
    let mut word: u16 = 0;
    loop {
        assert_eq!(concatenate(upper_eight_bits(word), lower_eight_bits(word)), word);
        if word == 0xFFFF {
            break;
        }
        word += 1;
    }
}

#[test]
fn read_bit_counts_from_the_least_significant_bit() {
    assert!(read_bit(0b0000_0001, 0));
    assert!(!read_bit(0b0000_0001, 1));
    assert!(read_bit(0b1000_0000, 7));
    assert!(!read_bit(0b0111_1111, 7));
    assert!(read_bit(0b0001_0000, 4));
}

#[test]
fn write_bit_changes_one_bit_only() {
    assert_eq!(write_bit(0b0000_0000, 3, true), 0b0000_1000);
    assert_eq!(write_bit(0b1111_1111, 3, false), 0b1111_0111);
    assert_eq!(write_bit(0b0000_1000, 3, true), 0b0000_1000);
    assert_eq!(write_bit(0b1111_0111, 3, false), 0b1111_0111);
    assert_eq!(write_bit(0x00, 7, true), 0x80);
    assert_eq!(write_bit(0xFF, 0, false), 0xFE);
}

#[test]
fn written_bit_reads_back_for_every_byte_and_bit() {
    for n in 0..=255u8 {
        for bit in 0..8u8 {
            for value in [false, true] {
                let written = write_bit(n, bit, value);
                assert_eq!(read_bit(written, bit), value);
                for other in 0..8u8 {
                    if other != bit {
                        assert_eq!(read_bit(written, other), read_bit(n, other));
                    }
                }
            }
        }
    }
}

#[test]
fn registers_start_at_zero() {
    let registers = Registers::default();
    assert_eq!(registers.a, 0);
    assert_eq!(registers.b, 0);
    assert_eq!(registers.c, 0);
    assert_eq!(registers.d, 0);
    assert_eq!(registers.e, 0);
    assert_eq!(registers.f, 0);
    assert_eq!(registers.g, 0);
    assert_eq!(registers.h, 0);
    assert_eq!(registers.l, 0);
    assert_eq!(registers.program_counter, 0);
    assert_eq!(registers.stack_pointer, 0);
}

#[test]
fn flags_sit_in_the_top_four_bits() {
    let mut registers = Registers::default();
    registers.write_flag(FlagBit::Z, true);
    assert_eq!(registers.f, 0x80);
    registers.write_flag(FlagBit::N, true);
    assert_eq!(registers.f, 0xC0);
    registers.write_flag(FlagBit::H, true);
    assert_eq!(registers.f, 0xE0);
    registers.write_flag(FlagBit::C, true);
    assert_eq!(registers.f, 0xF0);
    registers.write_flag(FlagBit::N, false);
    assert_eq!(registers.f, 0xB0);
    assert!(registers.read_flag(FlagBit::Z));
    assert!(!registers.read_flag(FlagBit::N));
    assert!(registers.read_flag(FlagBit::H));
    assert!(registers.read_flag(FlagBit::C));
}

#[test]
fn writing_a_flag_clears_the_unused_bits() {
    let mut registers = Registers::default();
    registers.f = 0x0F;
    registers.write_flag(FlagBit::C, false);
    assert_eq!(registers.f, 0x00);
    registers.f = 0x4F;
    registers.write_flag(FlagBit::Z, true);
    assert_eq!(registers.f, 0xC0);
}

#[test]
fn writing_a_flag_keeps_the_other_flags() {
    for f in 0..=255u8 {
        for (bit, mask) in [
            (FlagBit::Z, 0x80u8),
            (FlagBit::N, 0x40),
            (FlagBit::H, 0x20),
            (FlagBit::C, 0x10),
        ] {
            for value in [false, true] {
                let mut registers = Registers::default();
                registers.f = f;
                registers.write_flag(bit, value);
                let expected = if value { (f | mask) & 0xF0 } else { f & !mask & 0xF0 };
                assert_eq!(registers.f, expected);
                assert_eq!(registers.read_flag(bit), value);
            }
        }
    }
}

#[test]
fn write_flags_sets_all_four() {
    let mut registers = Registers::default();
    registers.f = 0xFF;
    registers.write_flags(true, false, true, false);
    assert_eq!(registers.f, 0xA0);
    registers.write_flags(false, true, false, true);
    assert_eq!(registers.f, 0x50);
    registers.write_flags(false, false, false, false);
    assert_eq!(registers.f, 0x00);
}

#[test]
fn pairs_are_high_byte_first() {
    let mut registers = Registers::default();
    registers.b = 0x12;
    registers.c = 0x34;
    registers.d = 0x56;
    registers.e = 0x78;
    registers.h = 0x9A;
    registers.l = 0xBC;
    registers.a = 0xDE;
    registers.f = 0xF0;
    registers.stack_pointer = 0xC0DE;
    assert_eq!(registers.pair(Pair::BC), 0x1234);
    assert_eq!(registers.pair(Pair::DE), 0x5678);
    assert_eq!(registers.pair(Pair::HL), 0x9ABC);
    assert_eq!(registers.pair(Pair::SP), 0xC0DE);
    assert_eq!(registers.stack_pair(StackPair::BC), 0x1234);
    assert_eq!(registers.stack_pair(StackPair::DE), 0x5678);
    assert_eq!(registers.stack_pair(StackPair::HL), 0x9ABC);
    assert_eq!(registers.stack_pair(StackPair::AF), 0xDEF0);
}

#[test]
fn set_pair_stores_both_bytes() {
    let mut registers = Registers::default();
    registers.set_pair(Pair::BC, 0x1234);
    registers.set_pair(Pair::DE, 0x5678);
    registers.set_pair(Pair::HL, 0x9ABC);
    registers.set_pair(Pair::SP, 0xFFFE);
    assert_eq!((registers.b, registers.c), (0x12, 0x34));
    assert_eq!((registers.d, registers.e), (0x56, 0x78));
    assert_eq!((registers.h, registers.l), (0x9A, 0xBC));
    assert_eq!(registers.stack_pointer, 0xFFFE);
    assert_eq!(registers.a, 0);
    assert_eq!(registers.f, 0);
}

#[test]
fn set_stack_pair_keeps_only_the_flags_of_the_low_byte() {
    let mut registers = Registers::default();
    registers.set_stack_pair(StackPair::AF, 0x12FF);
    assert_eq!(registers.a, 0x12);
    assert_eq!(registers.f, 0xF0);
    registers.set_stack_pair(StackPair::AF, 0x340F);
    assert_eq!(registers.a, 0x34);
    assert_eq!(registers.f, 0x00);
    registers.set_stack_pair(StackPair::HL, 0x12FF);
    assert_eq!((registers.h, registers.l), (0x12, 0xFF));
}

#[test]
fn conditions_read_zero_and_carry() {
    let mut registers = Registers::default();
    assert!(registers.condition(Condition::NotZero));
    assert!(!registers.condition(Condition::Zero));
    assert!(registers.condition(Condition::NoCarry));
    assert!(!registers.condition(Condition::Carry));
    registers.f = 0x90;
    assert!(!registers.condition(Condition::NotZero));
    assert!(registers.condition(Condition::Zero));
    assert!(!registers.condition(Condition::NoCarry));
    assert!(registers.condition(Condition::Carry));
}
