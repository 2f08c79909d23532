use gameboy_core::cpu::{
    cb_instructions, instructions, Cpu, DecodeError, Instruction, Registers, TimeIncrement,
};
use gameboy_core::memory::{Memory, MemoryAccess};

fn cpu_machine(program: &[u8]) -> (Cpu, Memory) {
    let mut boot = vec![0u8; 256];
    boot[..program.len()].copy_from_slice(program);
    let cartridge = vec![0u8; 16384];
    (Cpu::initialize(), Memory::initialize(&boot, &cartridge).unwrap())
}

fn cpu_time(m: u8, t: u8) -> Result<TimeIncrement, DecodeError> {
    Ok(TimeIncrement { m, t })
}

/// Runs one instruction from address 0 with the given registers.
fn cpu_run(program: &[u8], registers: Registers) -> (Registers, Memory, Result<TimeIncrement, DecodeError>) {
    let (mut cpu, mut memory) = cpu_machine(program);
    cpu.set_registers(registers);
    let result = cpu.step(&mut memory);
    (cpu.registers(), memory, result)
}

fn cpu_zero() -> Registers {
    Registers::default()
}

#[test]
fn step_costs_what_the_table_declares() {
    let primary: [Instruction; 256] = instructions();
    let secondary: [Instruction; 256] = cb_instructions();
    for opcode in 0..=255u8 {
        // With the zero flag set and the carry flag clear, no branch on
        // "not zero" or on "carry" is taken.
        let before = Registers { f: 0x80, h: 0xC0, stack_pointer: 0xD000, ..cpu_zero() };
        let (_, _, result) = cpu_run(&[opcode, 0x00, 0xC0], before);
        let declared = primary[opcode as usize].time_increment;
        let branches_on_zero = [0x28u8, 0xC8, 0xCA, 0xCC];
        let branches_on_no_carry = [0x30u8, 0xD0, 0xD2, 0xD4];
        if let Ok(time) = result {
            if opcode == 0xCB {
                let inner = secondary[0x00].time_increment;
                assert_eq!(time.m, declared.m + inner.m);
                assert_eq!(time.t, declared.t + inner.t);
            } else if branches_on_zero.contains(&opcode)
                || branches_on_no_carry.contains(&opcode)
            {
                assert!(time.m > declared.m);
            } else {
                assert_eq!(time, declared, "opcode {:#04x}", opcode);
            }
        }
    }
}

#[test]
fn processor_starts_at_address_zero() {
    let cpu = Cpu::initialize();
    assert_eq!(cpu.registers(), Registers::default());
    assert_eq!(cpu.registers().program_counter, 0x0000);
}

#[test]
fn load_stack_pointer_from_the_boot_image() {
    let (mut cpu, mut memory) = cpu_machine(&[0x31, 0xFE, 0xFF]);
    let result = cpu.step(&mut memory);
    assert_eq!(result, cpu_time(3, 12));
    assert_eq!(cpu.registers().stack_pointer, 0xFFFE);
    assert_eq!(cpu.registers().program_counter, 3);
}

#[test]
fn nop_only_moves_the_program_counter() {
    let mut before = cpu_zero();
    before.a = 1;
    before.f = 0xF0;
    before.stack_pointer = 0x1234;
    let (after, _, result) = cpu_run(&[0x00], before);
    assert_eq!(result, cpu_time(1, 4));
    assert_eq!(after, Registers { program_counter: 1, ..before });
}

#[test]
fn xor_a_clears_the_accumulator_whatever_the_flags() {
    for f in [0x00u8, 0x10, 0x80, 0xF0, 0xFF, 0x0F] {
        for a in [0x00u8, 0x5A, 0xFF] {
            let before = Registers { a, f, ..cpu_zero() };
            let (after, _, result) = cpu_run(&[0xAF], before);
            assert_eq!(result, cpu_time(1, 4));
            assert_eq!(after.a, 0);
            assert_eq!(after.f, 0x80);
            assert_eq!(after.program_counter, 1);
        }
    }
}

#[test]
fn push_then_pop_restores_the_pair() {
    let before = Registers { b: 0x12, c: 0x34, stack_pointer: 0xFFFE, ..cpu_zero() };
    let (mut cpu, mut memory) = cpu_machine(&[0xC5, 0xC1]);
    cpu.set_registers(before);
    assert_eq!(cpu.step(&mut memory), cpu_time(4, 16));
    assert_eq!(cpu.registers().stack_pointer, 0xFFFC);
    assert_eq!(memory.read_byte(0xFFFD), 0x12);
    assert_eq!(memory.read_byte(0xFFFC), 0x34);
    // Spoil the pair, so that the pop has to restore it.
    cpu.set_registers(Registers { b: 0, c: 0, ..cpu.registers() });
    assert_eq!(cpu.step(&mut memory), cpu_time(3, 12));
    assert_eq!(cpu.registers(), Registers { program_counter: 2, ..before });
}

#[test]
fn push_then_pop_of_every_pair_at_awkward_stack_pointers() {
    for (push, pop) in [(0xC5u8, 0xC1u8), (0xD5, 0xD1), (0xE5, 0xE1), (0xF5, 0xF1)] {
        for stack_pointer in [0x0000u16, 0x0001, 0x0002, 0x0101, 0x4001, 0xFF51, 0xFF52, 0xFFFF] {
            let before = Registers {
                a: 0x01,
                f: 0xB0,
                b: 0x23,
                c: 0x45,
                d: 0x67,
                e: 0x89,
                h: 0xAB,
                l: 0xCD,
                stack_pointer,
                program_counter: 0x80,
                ..cpu_zero()
            };
            let mut program = vec![0u8; 0x82];
            program[0x80] = push;
            program[0x81] = pop;
            let (mut cpu, mut memory) = cpu_machine(&program);
            cpu.set_registers(before);
            assert_eq!(cpu.step(&mut memory), cpu_time(4, 16));
            assert_eq!(cpu.registers().stack_pointer, stack_pointer.wrapping_sub(2));
            if memory.read_byte(0x81) != pop {
                // The push went over the program or unmapped the boot image.
                continue;
            }
            assert_eq!(cpu.step(&mut memory), cpu_time(3, 12));
            assert_eq!(cpu.registers(), Registers { program_counter: 0x82, ..before });
        }
    }
}

#[test]
fn pop_af_keeps_only_the_four_flags() {
    let (mut cpu, mut memory) = cpu_machine(&[0xF1]);
    memory.write_word(0xC000, 0x12FF);
    cpu.set_registers(Registers { stack_pointer: 0xC000, ..cpu_zero() });
    assert_eq!(cpu.step(&mut memory), cpu_time(3, 12));
    assert_eq!(cpu.registers().a, 0x12);
    assert_eq!(cpu.registers().f, 0xF0);
    assert_eq!(cpu.registers().stack_pointer, 0xC002);
}

#[test]
fn relative_jump_forward() {
    let (after, _, result) = cpu_run(&[0x18, 0x05], cpu_zero());
    assert_eq!(result, cpu_time(3, 12));
    assert_eq!(after.program_counter, 7);
}

#[test]
fn relative_jump_by_zero_goes_to_the_next_instruction() {
    let (after, _, _) = cpu_run(&[0x18, 0x00], cpu_zero());
    assert_eq!(after.program_counter, 2);
}

#[test]
fn relative_jump_backward() {
    let mut program = vec![0u8; 0x12];
    program[0x10] = 0x18;
    program[0x11] = 0xFE;
    let (after, _, _) = cpu_run(&program, Registers { program_counter: 0x10, ..cpu_zero() });
    assert_eq!(after.program_counter, 0x10);
    program[0x11] = 0xF0;
    let (after, _, _) = cpu_run(&program, Registers { program_counter: 0x10, ..cpu_zero() });
    assert_eq!(after.program_counter, 0x02);
}

#[test]
fn relative_jump_wraps_below_zero() {
    let (after, _, _) = cpu_run(&[0x18, 0x80], cpu_zero());
    assert_eq!(after.program_counter, 0xFF82);
    let (after, _, _) = cpu_run(&[0x18, 0xFD], cpu_zero());
    assert_eq!(after.program_counter, 0xFFFF);
}

#[test]
fn relative_jump_wraps_above_the_last_address() {
    let (mut cpu, mut memory) = cpu_machine(&[]);
    memory.write_byte(0xFFFE, 0x18);
    memory.write_byte(0xFFFF, 0x05);
    cpu.set_registers(Registers { program_counter: 0xFFFE, ..cpu_zero() });
    assert_eq!(cpu.step(&mut memory), cpu_time(3, 12));
    assert_eq!(cpu.registers().program_counter, 0x0005);
}

#[test]
fn relative_jump_with_the_operand_behind_the_wrap() {
    // The opcode is the last byte of memory, its operand the first.
    let (mut cpu, mut memory) = cpu_machine(&[0x10]);
    memory.write_byte(0xFFFF, 0x18);
    cpu.set_registers(Registers { program_counter: 0xFFFF, ..cpu_zero() });
    assert_eq!(cpu.step(&mut memory), cpu_time(3, 12));
    assert_eq!(cpu.registers().program_counter, 0x0011);
}

#[test]
fn relative_jump_arithmetic_for_every_offset() {
    for base in [0x0000u16, 0x0040, 0x00FE] {
        for offset in 0..=255u8 {
            let mut program = vec![0u8; 256];
            program[base as usize] = 0x18;
            program[base as usize + 1] = offset;
            let (after, _, _) = cpu_run(&program, Registers { program_counter: base, ..cpu_zero() });
            let expected = base.wrapping_add(2).wrapping_add(offset as i8 as i16 as u16);
            assert_eq!(after.program_counter, expected);
        }
    }
}

#[test]
fn conditional_relative_jump_costs_more_when_taken() {
    let clear = cpu_zero();
    let zero = Registers { f: 0x80, ..cpu_zero() };
    let carry = Registers { f: 0x10, ..cpu_zero() };
    // JR NZ
    let (after, _, result) = cpu_run(&[0x20, 0x03], clear);
    assert_eq!((after.program_counter, result), (5, cpu_time(3, 12)));
    let (after, _, result) = cpu_run(&[0x20, 0x03], zero);
    assert_eq!((after.program_counter, result), (2, cpu_time(2, 8)));
    // JR Z
    let (after, _, result) = cpu_run(&[0x28, 0x03], zero);
    assert_eq!((after.program_counter, result), (5, cpu_time(3, 12)));
    let (after, _, result) = cpu_run(&[0x28, 0x03], clear);
    assert_eq!((after.program_counter, result), (2, cpu_time(2, 8)));
    // JR NC
    let (after, _, result) = cpu_run(&[0x30, 0x03], clear);
    assert_eq!((after.program_counter, result), (5, cpu_time(3, 12)));
    let (after, _, result) = cpu_run(&[0x30, 0x03], carry);
    assert_eq!((after.program_counter, result), (2, cpu_time(2, 8)));
    // JR C
    let (after, _, result) = cpu_run(&[0x38, 0x03], carry);
    assert_eq!((after.program_counter, result), (5, cpu_time(3, 12)));
    let (after, _, result) = cpu_run(&[0x38, 0x03], clear);
    assert_eq!((after.program_counter, result), (2, cpu_time(2, 8)));
}

#[test]
fn absolute_jumps() {
    let (after, _, result) = cpu_run(&[0xC3, 0x34, 0x12], cpu_zero());
    assert_eq!((after.program_counter, result), (0x1234, cpu_time(4, 16)));
    let (after, _, result) = cpu_run(&[0xC2, 0x34, 0x12], cpu_zero());
    assert_eq!((after.program_counter, result), (0x1234, cpu_time(4, 16)));
    let (after, _, result) = cpu_run(&[0xC2, 0x34, 0x12], Registers { f: 0x80, ..cpu_zero() });
    assert_eq!((after.program_counter, result), (3, cpu_time(3, 12)));
    let (after, _, result) = cpu_run(&[0xDA, 0x34, 0x12], Registers { f: 0x10, ..cpu_zero() });
    assert_eq!((after.program_counter, result), (0x1234, cpu_time(4, 16)));
    let (after, _, result) = cpu_run(&[0xE9], Registers { h: 0xC0, l: 0x01, ..cpu_zero() });
    assert_eq!((after.program_counter, result), (0xC001, cpu_time(1, 4)));
}

#[test]
fn call_pushes_the_return_address() {
    let before = Registers { stack_pointer: 0xFFFE, ..cpu_zero() };
    let (after, memory, result) = cpu_run(&[0xCD, 0x34, 0x12], before);
    assert_eq!(result, cpu_time(6, 24));
    assert_eq!(after.program_counter, 0x1234);
    assert_eq!(after.stack_pointer, 0xFFFC);
    assert_eq!(memory.read_byte(0xFFFC), 0x03);
    assert_eq!(memory.read_byte(0xFFFD), 0x00);
}

#[test]
fn return_pops_the_program_counter() {
    let (mut cpu, mut memory) = cpu_machine(&[0xCD, 0x34, 0x12]);
    memory.write_byte(0x1234, 0xC9);
    cpu.set_registers(Registers { stack_pointer: 0xFFFE, ..cpu_zero() });
    assert_eq!(cpu.step(&mut memory), cpu_time(6, 24));
    assert_eq!(cpu.step(&mut memory), cpu_time(4, 16));
    assert_eq!(cpu.registers().program_counter, 3);
    assert_eq!(cpu.registers().stack_pointer, 0xFFFE);
}

#[test]
fn conditional_call_and_return_cost_more_when_taken() {
    let stack = Registers { stack_pointer: 0xD000, ..cpu_zero() };
    let (after, _, result) = cpu_run(&[0xC4, 0x00, 0x20], stack);
    assert_eq!((after.program_counter, after.stack_pointer, result), (0x2000, 0xCFFE, cpu_time(6, 24)));
    let (after, _, result) = cpu_run(&[0xC4, 0x00, 0x20], Registers { f: 0x80, ..stack });
    assert_eq!((after.program_counter, after.stack_pointer, result), (3, 0xD000, cpu_time(3, 12)));
    let (after, _, result) = cpu_run(&[0xDC, 0x00, 0x20], Registers { f: 0x10, ..stack });
    assert_eq!((after.program_counter, result), (0x2000, cpu_time(6, 24)));

    let (mut cpu, mut memory) = cpu_machine(&[0xC8]);
    memory.write_word(0xD000, 0x4321);
    cpu.set_registers(Registers { f: 0x80, ..stack });
    assert_eq!(cpu.step(&mut memory), cpu_time(5, 20));
    assert_eq!(cpu.registers().program_counter, 0x4321);
    assert_eq!(cpu.registers().stack_pointer, 0xD002);
    cpu.set_registers(Registers { program_counter: 0, ..stack });
    assert_eq!(cpu.step(&mut memory), cpu_time(2, 8));
    assert_eq!(cpu.registers().program_counter, 1);
    assert_eq!(cpu.registers().stack_pointer, 0xD000);
}

#[test]
fn restart_calls_a_fixed_address() {
    let before = Registers { stack_pointer: 0xFFFE, program_counter: 0x20, ..cpu_zero() };
    let mut program = vec![0u8; 0x21];
    program[0x20] = 0xEF;
    let (after, memory, result) = cpu_run(&program, before);
    assert_eq!(result, cpu_time(4, 16));
    assert_eq!(after.program_counter, 0x0028);
    assert_eq!(after.stack_pointer, 0xFFFC);
    assert_eq!(memory.read_word(0xFFFC), 0x0021);
}

#[test]
fn opcode_without_behaviour_is_a_decode_error() {
    for opcode in [
        0x10u8, 0x76, 0xD3, 0xD9, 0xDB, 0xDD, 0xE3, 0xE4, 0xEB, 0xEC, 0xED, 0xF3, 0xF4, 0xFB,
        0xFC, 0xFD,
    ] {
        let before = Registers { a: 7, f: 0x50, stack_pointer: 0xC000, ..cpu_zero() };
        let (after, memory, result) = cpu_run(&[opcode, 0x12, 0x34], before);
        assert_eq!(result, Err(DecodeError { opcode, address: 0, extended: false }));
        assert_eq!(after, before);
        assert_eq!(memory.read_byte(0), opcode);
        assert_eq!(memory.read_byte(0xBFFF), 0);
    }
}

#[test]
fn decode_error_names_the_address() {
    let mut program = vec![0u8; 0x41];
    program[0x40] = 0xFC;
    let before = Registers { program_counter: 0x40, ..cpu_zero() };
    let (after, _, result) = cpu_run(&program, before);
    assert_eq!(result, Err(DecodeError { opcode: 0xFC, address: 0x40, extended: false }));
    assert_eq!(after, before);
}

#[test]
fn every_other_opcode_executes() {
    for opcode in 0..=255u8 {
        let before = Registers { stack_pointer: 0xD000, h: 0xC0, ..cpu_zero() };
        let (_, _, result) = cpu_run(&[opcode, 0x00, 0xC0], before);
        let without = [
            0x10u8, 0x76, 0xD3, 0xD9, 0xDB, 0xDD, 0xE3, 0xE4, 0xEB, 0xEC, 0xED, 0xF3, 0xF4,
            0xFB, 0xFC, 0xFD,
        ];
        assert_eq!(result.is_err(), without.contains(&opcode));
        if let Ok(time) = result {
            assert!(time.m >= 1);
            assert_eq!(time.t, 4 * time.m);
        }
    }
}

#[test]
fn every_secondary_opcode_executes() {
    for opcode in 0..=255u8 {
        let before = Registers { h: 0xC0, ..cpu_zero() };
        let (after, _, result) = cpu_run(&[0xCB, opcode], before);
        let time = result.unwrap();
        let indirect = opcode & 7 == 6;
        let test = opcode >> 6 == 1;
        let expected = if !indirect { 2 } else if test { 3 } else { 4 };
        assert_eq!(time, TimeIncrement { m: expected, t: 4 * expected });
        assert_eq!(after.program_counter, 2);
    }
}

#[test]
fn eight_bit_loads() {
    let (after, _, result) = cpu_run(&[0x06, 0x42], cpu_zero());
    assert_eq!((after.b, after.program_counter, result), (0x42, 2, cpu_time(2, 8)));
    let (after, _, result) = cpu_run(&[0x3E, 0x99], cpu_zero());
    assert_eq!((after.a, after.program_counter, result), (0x99, 2, cpu_time(2, 8)));
    let (after, _, result) = cpu_run(&[0x4F], Registers { a: 0x77, ..cpu_zero() });
    assert_eq!((after.c, after.a, after.program_counter, result), (0x77, 0x77, 1, cpu_time(1, 4)));
    let (after, _, _) = cpu_run(&[0x7B], Registers { e: 0x31, ..cpu_zero() });
    assert_eq!(after.a, 0x31);
    let (after, _, _) = cpu_run(&[0x65], Registers { l: 0x31, h: 0x01, ..cpu_zero() });
    assert_eq!((after.h, after.l), (0x31, 0x31));
}

#[test]
fn loads_through_hl() {
    let at = Registers { h: 0xC1, l: 0x23, b: 0x5A, ..cpu_zero() };
    let (after, memory, result) = cpu_run(&[0x70], at);
    assert_eq!(result, cpu_time(2, 8));
    assert_eq!(memory.read_byte(0xC123), 0x5A);
    assert_eq!(after, Registers { program_counter: 1, ..at });

    let (mut cpu, mut memory) = cpu_machine(&[0x56]);
    memory.write_byte(0xC123, 0x9C);
    cpu.set_registers(at);
    assert_eq!(cpu.step(&mut memory), cpu_time(2, 8));
    assert_eq!(cpu.registers().d, 0x9C);

    let (after, memory, result) = cpu_run(&[0x36, 0xEE], at);
    assert_eq!(result, cpu_time(3, 12));
    assert_eq!(memory.read_byte(0xC123), 0xEE);
    assert_eq!(after.program_counter, 2);
}

#[test]
fn accumulator_loads_through_pairs() {
    let before = Registers { a: 0x3C, b: 0xC0, c: 0x05, d: 0xC0, e: 0x06, h: 0xC0, l: 0xFF, ..cpu_zero() };
    let (after, memory, result) = cpu_run(&[0x02], before);
    assert_eq!(result, cpu_time(2, 8));
    assert_eq!(memory.read_byte(0xC005), 0x3C);
    assert_eq!(after, Registers { program_counter: 1, ..before });
    let (_, memory, _) = cpu_run(&[0x12], before);
    assert_eq!(memory.read_byte(0xC006), 0x3C);
    let (after, memory, _) = cpu_run(&[0x22], before);
    assert_eq!(memory.read_byte(0xC0FF), 0x3C);
    assert_eq!((after.h, after.l), (0xC1, 0x00));
    let (after, memory, _) = cpu_run(&[0x32], before);
    assert_eq!(memory.read_byte(0xC0FF), 0x3C);
    assert_eq!((after.h, after.l), (0xC0, 0xFE));

    let (mut cpu, mut memory) = cpu_machine(&[0x0A, 0x1A, 0x2A, 0x3A]);
    memory.write_byte(0xC005, 0x11);
    memory.write_byte(0xC006, 0x22);
    memory.write_byte(0xC0FF, 0x33);
    memory.write_byte(0xC100, 0x44);
    cpu.set_registers(before);
    cpu.step(&mut memory).unwrap();
    assert_eq!(cpu.registers().a, 0x11);
    cpu.step(&mut memory).unwrap();
    assert_eq!(cpu.registers().a, 0x22);
    cpu.step(&mut memory).unwrap();
    assert_eq!(cpu.registers().a, 0x33);
    assert_eq!((cpu.registers().h, cpu.registers().l), (0xC1, 0x00));
    cpu.step(&mut memory).unwrap();
    assert_eq!(cpu.registers().a, 0x44);
    assert_eq!((cpu.registers().h, cpu.registers().l), (0xC0, 0xFF));
}

#[test]
fn hl_increment_and_decrement_wrap() {
    let (after, _, _) = cpu_run(&[0x22], Registers { h: 0xFF, l: 0xFF, ..cpu_zero() });
    assert_eq!((after.h, after.l), (0x00, 0x00));
    let (mut cpu, mut memory) = cpu_machine(&[0x32]);
    memory.write_byte(0xFF50, 0);
    memory.write_byte(0x0000, 0x32);
    cpu.set_registers(Registers { h: 0x00, l: 0x00, a: 0x32, ..cpu_zero() });
    cpu.step(&mut memory).unwrap();
    assert_eq!((cpu.registers().h, cpu.registers().l), (0xFF, 0xFF));
}

#[test]
fn loads_of_the_last_page() {
    let before = Registers { a: 0x3C, c: 0x80, ..cpu_zero() };
    let (after, memory, result) = cpu_run(&[0xE0, 0x42], before);
    assert_eq!(result, cpu_time(3, 12));
    assert_eq!(memory.read_byte(0xFF42), 0x3C);
    assert_eq!(after.program_counter, 2);
    let (after, memory, result) = cpu_run(&[0xE2], before);
    assert_eq!(result, cpu_time(2, 8));
    assert_eq!(memory.read_byte(0xFF80), 0x3C);
    assert_eq!(after.program_counter, 1);

    let (mut cpu, mut memory) = cpu_machine(&[0xF0, 0x44, 0xF2]);
    memory.write_byte(0xFF44, 0x90);
    memory.write_byte(0xFF80, 0x91);
    cpu.set_registers(Registers { c: 0x80, ..cpu_zero() });
    assert_eq!(cpu.step(&mut memory), cpu_time(3, 12));
    assert_eq!(cpu.registers().a, 0x90);
    assert_eq!(cpu.step(&mut memory), cpu_time(2, 8));
    assert_eq!(cpu.registers().a, 0x91);
    assert_eq!(cpu.registers().program_counter, 3);
}

#[test]
fn absolute_loads_are_little_endian() {
    let (after, memory, result) = cpu_run(&[0xEA, 0x34, 0xC2], Registers { a: 0x77, ..cpu_zero() });
    assert_eq!(result, cpu_time(4, 16));
    assert_eq!(memory.read_byte(0xC234), 0x77);
    assert_eq!(after.program_counter, 3);

    let (mut cpu, mut memory) = cpu_machine(&[0xFA, 0x34, 0xC2]);
    memory.write_byte(0xC234, 0x66);
    assert_eq!(cpu.step(&mut memory), cpu_time(4, 16));
    assert_eq!(cpu.registers().a, 0x66);
    assert_eq!(cpu.registers().program_counter, 3);
}

#[test]
fn sixteen_bit_loads() {
    let (after, _, result) = cpu_run(&[0x01, 0x34, 0x12], cpu_zero());
    assert_eq!((after.b, after.c, after.program_counter, result), (0x12, 0x34, 3, cpu_time(3, 12)));
    let (after, _, _) = cpu_run(&[0x11, 0x34, 0x12], cpu_zero());
    assert_eq!((after.d, after.e), (0x12, 0x34));
    let (after, _, _) = cpu_run(&[0x21, 0x34, 0x12], cpu_zero());
    assert_eq!((after.h, after.l), (0x12, 0x34));
    let (after, _, result) = cpu_run(&[0xF9], Registers { h: 0xAB, l: 0xCD, ..cpu_zero() });
    assert_eq!((after.stack_pointer, after.program_counter, result), (0xABCD, 1, cpu_time(2, 8)));
}

#[test]
fn stack_pointer_is_stored_little_endian() {
    let before = Registers { stack_pointer: 0xFFF8, ..cpu_zero() };
    let (after, memory, result) = cpu_run(&[0x08, 0x00, 0xC1], before);
    assert_eq!(result, cpu_time(5, 20));
    assert_eq!(memory.read_byte(0xC100), 0xF8);
    assert_eq!(memory.read_byte(0xC101), 0xFF);
    assert_eq!(after, Registers { program_counter: 3, ..before });
}

#[test]
fn write_to_the_unmap_register_uncovers_the_cartridge() {
    let mut boot = vec![0u8; 256];
    boot[0] = 0xE0;
    boot[1] = 0x50;
    let mut cartridge = vec![0u8; 16384];
    cartridge[2] = 0x3C;
    let mut memory = Memory::initialize(&boot, &cartridge).unwrap();
    let mut cpu = Cpu::initialize();
    cpu.set_registers(Registers { a: 1, ..cpu_zero() });
    assert_eq!(cpu.step(&mut memory), cpu_time(3, 12));
    assert_eq!(cpu.registers().program_counter, 2);
    // The next opcode comes from the cartridge: INC A.
    assert_eq!(cpu.step(&mut memory), cpu_time(1, 4));
    assert_eq!(cpu.registers().a, 2);
}
