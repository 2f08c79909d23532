//! What each effect does to the registers and the bus.
//!
//! An effect reads the operand bytes that follow its opcode, does its work,
//! and leaves the program counter after the instruction, or at the target
//! of a jump, call or return that was taken. `spec_execute` is the meaning
//! of an effect; `execute` carries it out.

use vstd::prelude::*;
use crate::alu::{
    add_words, alu, complement, decimal_adjust, decrement, increment, offset_stack_pointer,
    offset_word, rotate_accumulator, shift, spec_add_words, spec_add_words_flags, spec_alu,
    spec_complement, spec_decimal_adjust, spec_decrement, spec_decrement_flags, spec_increment,
    spec_increment_flags, spec_offset_flags, spec_offset_word, spec_rotate_accumulator,
    spec_shift_flags, spec_shift_result, spec_write_carry, write_carry,
};
use crate::bits::{
    lower_eight_bits, read_bit, spec_lower_eight_bits, spec_read_bit, spec_upper_eight_bits,
    spec_write_bit, upper_eight_bits, write_bit,
};
use crate::isa::{Effect, Pair, Pointer, Target};
use crate::memory::{bus_read, bus_read_word, bus_write, bus_write_word, BusState, MemoryAccess};
use crate::registers::{FlagBit, Registers};

verus! {

/// The state that an effect leaves, and whether it was a conditional jump,
/// call or return whose condition held.
pub ghost struct Outcome {
    pub registers: Registers,
    pub bus: BusState,
    pub taken: bool,
}

/// Whether an effect can stand in a table: a bit instruction names one of
/// the eight bits of a byte.
pub open spec fn effect_wf(effect: Effect) -> bool {
    match effect {
        Effect::TestBit(bit, _) => bit <= 7,
        Effect::ResetBit(bit, _) => bit <= 7,
        Effect::SetBit(bit, _) => bit <= 7,
        _ => true,
    }
}

/// The address `distance` bytes after the program counter, wrapping.
pub open spec fn operand_address(registers: Registers, distance: int) -> u16 {
    ((registers.program_counter + distance) % 0x10000) as u16
}

/// The registers with the program counter moved past an instruction of
/// `length` bytes.
pub open spec fn advance(registers: Registers, length: int) -> Registers {
    Registers { program_counter: operand_address(registers, length), ..registers }
}

/// The byte that follows the opcode.
pub open spec fn immediate_byte(registers: Registers, bus: BusState) -> u8 {
    bus_read(bus, operand_address(registers, 1))
}

/// The little-endian word that follows the opcode.
pub open spec fn immediate_word(registers: Registers, bus: BusState) -> u16 {
    bus_read_word(bus, operand_address(registers, 1))
}

/// The address in the last page of memory that `offset` selects.
pub open spec fn high_address(offset: u8) -> u16 {
    (0xFF00 + offset) as u16
}

/// The value of an eight-bit operand.
pub open spec fn spec_target_value(target: Target, registers: Registers, bus: BusState) -> u8 {
    match target {
        Target::B => registers.b,
        Target::C => registers.c,
        Target::D => registers.d,
        Target::E => registers.e,
        Target::H => registers.h,
        Target::L => registers.l,
        Target::HlIndirect => bus_read(bus, registers.spec_pair(Pair::HL)),
        Target::A => registers.a,
    }
}

/// The registers after `value` was stored in an eight-bit operand.
pub open spec fn spec_store_registers(target: Target, value: u8, registers: Registers) -> Registers {
    match target {
        Target::B => Registers { b: value, ..registers },
        Target::C => Registers { c: value, ..registers },
        Target::D => Registers { d: value, ..registers },
        Target::E => Registers { e: value, ..registers },
        Target::H => Registers { h: value, ..registers },
        Target::L => Registers { l: value, ..registers },
        Target::HlIndirect => registers,
        Target::A => Registers { a: value, ..registers },
    }
}

/// The bus after `value` was stored in an eight-bit operand.
pub open spec fn spec_store_bus(
    target: Target,
    value: u8,
    registers: Registers,
    bus: BusState,
) -> BusState {
    if target == Target::HlIndirect {
        bus_write(bus, registers.spec_pair(Pair::HL), value)
    } else {
        bus
    }
}

/// The address that a pointer operand names.
pub open spec fn spec_pointer_address(pointer: Pointer, registers: Registers) -> u16 {
    match pointer {
        Pointer::BC => registers.spec_pair(Pair::BC),
        Pointer::DE => registers.spec_pair(Pair::DE),
        Pointer::HlIncrement => registers.spec_pair(Pair::HL),
        Pointer::HlDecrement => registers.spec_pair(Pair::HL),
    }
}

/// The registers after a pointer operand was used: `HL` moves by one where
/// the operand says so.
pub open spec fn spec_pointer_adjust(pointer: Pointer, registers: Registers) -> Registers {
    let hl = registers.spec_pair(Pair::HL);
    match pointer {
        Pointer::BC => registers,
        Pointer::DE => registers,
        Pointer::HlIncrement => registers.spec_set_pair(Pair::HL, ((hl + 1) % 0x10000) as u16),
        Pointer::HlDecrement => registers.spec_set_pair(Pair::HL, ((hl - 1) % 0x10000) as u16),
    }
}

/// The registers after a word was pushed: the stack pointer is two lower.
pub open spec fn spec_push_registers(registers: Registers) -> Registers {
    Registers {
        stack_pointer: ((registers.stack_pointer - 2) % 0x10000) as u16,
        ..registers
    }
}

/// The bus after `value` was pushed: the high byte just below the old stack
/// pointer, the low byte below that.
pub open spec fn spec_push_bus(registers: Registers, bus: BusState, value: u16) -> BusState {
    let high_at = ((registers.stack_pointer - 1) % 0x10000) as u16;
    let low_at = ((registers.stack_pointer - 2) % 0x10000) as u16;
    bus_write(
        bus_write(bus, high_at, spec_upper_eight_bits(value)),
        low_at,
        spec_lower_eight_bits(value),
    )
}

/// The word on top of the stack: the low byte at the stack pointer, the
/// high byte above it.
pub open spec fn spec_stack_top(registers: Registers, bus: BusState) -> u16 {
    bus_read_word(bus, registers.stack_pointer)
}

/// The registers after a word was popped: the stack pointer is two higher.
pub open spec fn spec_pop_registers(registers: Registers) -> Registers {
    Registers {
        stack_pointer: ((registers.stack_pointer + 2) % 0x10000) as u16,
        ..registers
    }
}

/// The registers with the program counter at `target`.
pub open spec fn jump_to(registers: Registers, target: u16) -> Registers {
    Registers { program_counter: target, ..registers }
}

/// The target of a relative jump: the address after the two-byte
/// instruction, moved by the signed byte that follows the opcode.
pub open spec fn spec_relative_target(registers: Registers, bus: BusState) -> u16 {
    spec_offset_word(operand_address(registers, 2), immediate_byte(registers, bus))
}

/// The outcome of an effect that is no conditional transfer taken.
pub open spec fn done(registers: Registers, bus: BusState) -> Outcome {
    Outcome { registers, bus, taken: false }
}

/// The outcome of a conditional transfer whose condition held.
pub open spec fn branched(registers: Registers, bus: BusState) -> Outcome {
    Outcome { registers, bus, taken: true }
}

/// The outcome of a call to `target` that returns to `return_to`.
pub open spec fn spec_call(
    registers: Registers,
    bus: BusState,
    target: u16,
    return_to: u16,
    taken: bool,
) -> Outcome {
    Outcome {
        registers: jump_to(spec_push_registers(registers), target),
        bus: spec_push_bus(registers, bus, return_to),
        taken,
    }
}

/// The outcome of a return.
pub open spec fn spec_return(registers: Registers, bus: BusState, taken: bool) -> Outcome {
    Outcome {
        registers: jump_to(spec_pop_registers(registers), spec_stack_top(registers, bus)),
        bus,
        taken,
    }
}

/// The outcome of storing `value` in an eight-bit operand and moving past
/// an instruction of `length` bytes, starting from `registers`, whose flags
/// the instruction has already written.
pub open spec fn spec_store(
    target: Target,
    value: u8,
    registers: Registers,
    bus: BusState,
    length: int,
) -> Outcome {
    done(
        advance(spec_store_registers(target, value, registers), length),
        spec_store_bus(target, value, registers, bus),
    )
}

/// The registers after a register pair was added to `HL`.
pub open spec fn spec_add_to_hl(pair: Pair, registers: Registers) -> Registers {
    let left = registers.spec_pair(Pair::HL);
    let right = registers.spec_pair(pair);
    spec_add_words_flags(registers, left, right).spec_set_pair(
        Pair::HL,
        spec_add_words(left, right),
    )
}

/// The registers after a register pair moved by `step`, which is 1 or -1,
/// wrapping. No flag changes.
pub open spec fn spec_step_pair(pair: Pair, registers: Registers, step: int) -> Registers {
    registers.spec_set_pair(pair, ((registers.spec_pair(pair) + step) % 0x10000) as u16)
}

/// The registers after the signed `offset` was added to the stack pointer.
pub open spec fn spec_add_to_stack_pointer(registers: Registers, offset: u8) -> Registers {
    let base = registers.stack_pointer;
    Registers {
        stack_pointer: spec_offset_word(base, offset),
        ..spec_offset_flags(registers, base, offset)
    }
}

/// The registers after `HL` took the stack pointer moved by the signed
/// `offset`.
pub open spec fn spec_load_hl_from_stack_offset(registers: Registers, offset: u8) -> Registers {
    let base = registers.stack_pointer;
    spec_offset_flags(registers, base, offset).spec_set_pair(
        Pair::HL,
        spec_offset_word(base, offset),
    )
}

/// What an effect makes of the registers and the bus.
pub open spec fn spec_execute(effect: Effect, registers: Registers, bus: BusState) -> Outcome {
    let r = registers;
    match effect {
        Effect::Nop => done(advance(r, 1), bus),
        Effect::StoreStackPointer => done(
            advance(r, 3),
            bus_write_word(bus, immediate_word(r, bus), r.stack_pointer),
        ),
        Effect::JumpRelative => done(jump_to(r, spec_relative_target(r, bus)), bus),
        Effect::JumpRelativeIf(condition) => if r.spec_condition(condition) {
            branched(jump_to(r, spec_relative_target(r, bus)), bus)
        } else {
            done(advance(r, 2), bus)
        },
        Effect::LoadPairImmediate(pair) => done(
            advance(r.spec_set_pair(pair, immediate_word(r, bus)), 3),
            bus,
        ),
        Effect::AddToHl(pair) => done(advance(spec_add_to_hl(pair, r), 1), bus),
        Effect::StoreAccumulator(pointer) => done(
            advance(spec_pointer_adjust(pointer, r), 1),
            bus_write(bus, spec_pointer_address(pointer, r), r.a),
        ),
        Effect::LoadAccumulator(pointer) => done(
            advance(
                Registers {
                    a: bus_read(bus, spec_pointer_address(pointer, r)),
                    ..spec_pointer_adjust(pointer, r)
                },
                1,
            ),
            bus,
        ),
        Effect::IncrementPair(pair) => done(advance(spec_step_pair(pair, r, 1), 1), bus),
        Effect::DecrementPair(pair) => done(advance(spec_step_pair(pair, r, -1), 1), bus),
        Effect::Increment(target) => {
            let value = spec_target_value(target, r, bus);
            spec_store(target, spec_increment(value), spec_increment_flags(r, value), bus, 1)
        },
        Effect::Decrement(target) => {
            let value = spec_target_value(target, r, bus);
            spec_store(target, spec_decrement(value), spec_decrement_flags(r, value), bus, 1)
        },
        Effect::LoadImmediate(target) => spec_store(target, immediate_byte(r, bus), r, bus, 2),
        Effect::RotateAccumulator(op) => done(advance(spec_rotate_accumulator(op, r), 1), bus),
        Effect::DecimalAdjust => done(advance(spec_decimal_adjust(r), 1), bus),
        Effect::Complement => done(advance(spec_complement(r), 1), bus),
        Effect::SetCarry => done(advance(spec_write_carry(r, true), 1), bus),
        Effect::ComplementCarry => done(
            advance(spec_write_carry(r, !r.spec_read_flag(FlagBit::C)), 1),
            bus,
        ),
        Effect::Load(destination, source) => spec_store(
            destination,
            spec_target_value(source, r, bus),
            r,
            bus,
            1,
        ),
        Effect::Alu(op, source) => done(
            advance(spec_alu(op, r, spec_target_value(source, r, bus)), 1),
            bus,
        ),
        Effect::AluImmediate(op) => done(advance(spec_alu(op, r, immediate_byte(r, bus)), 2), bus),
        Effect::ReturnIf(condition) => if r.spec_condition(condition) {
            spec_return(r, bus, true)
        } else {
            done(advance(r, 1), bus)
        },
        Effect::StoreHighImmediate => done(
            advance(r, 2),
            bus_write(bus, high_address(immediate_byte(r, bus)), r.a),
        ),
        Effect::AddToStackPointer => done(
            advance(spec_add_to_stack_pointer(r, immediate_byte(r, bus)), 2),
            bus,
        ),
        Effect::LoadHighImmediate => done(
            advance(Registers { a: bus_read(bus, high_address(immediate_byte(r, bus))), ..r }, 2),
            bus,
        ),
        Effect::LoadHlFromStackOffset => done(
            advance(spec_load_hl_from_stack_offset(r, immediate_byte(r, bus)), 2),
            bus,
        ),
        Effect::Pop(pair) => done(
            advance(spec_pop_registers(r).spec_set_stack_pair(pair, spec_stack_top(r, bus)), 1),
            bus,
        ),
        Effect::Return => spec_return(r, bus, false),
        Effect::JumpToHl => done(jump_to(r, r.spec_pair(Pair::HL)), bus),
        Effect::LoadStackPointerFromHl => done(
            advance(Registers { stack_pointer: r.spec_pair(Pair::HL), ..r }, 1),
            bus,
        ),
        Effect::JumpIf(condition) => if r.spec_condition(condition) {
            branched(jump_to(r, immediate_word(r, bus)), bus)
        } else {
            done(advance(r, 3), bus)
        },
        Effect::StoreHighC => done(advance(r, 1), bus_write(bus, high_address(r.c), r.a)),
        Effect::StoreAbsolute => done(advance(r, 3), bus_write(bus, immediate_word(r, bus), r.a)),
        Effect::LoadHighC => done(
            advance(Registers { a: bus_read(bus, high_address(r.c)), ..r }, 1),
            bus,
        ),
        Effect::LoadAbsolute => done(
            advance(Registers { a: bus_read(bus, immediate_word(r, bus)), ..r }, 3),
            bus,
        ),
        Effect::Jump => done(jump_to(r, immediate_word(r, bus)), bus),
        Effect::Prefix => done(advance(r, 1), bus),
        Effect::CallIf(condition) => if r.spec_condition(condition) {
            spec_call(r, bus, immediate_word(r, bus), operand_address(r, 3), true)
        } else {
            done(advance(r, 3), bus)
        },
        Effect::Push(pair) => done(
            advance(spec_push_registers(r), 1),
            spec_push_bus(r, bus, r.spec_stack_pair(pair)),
        ),
        Effect::Call => spec_call(r, bus, immediate_word(r, bus), operand_address(r, 3), false),
        Effect::Restart(address) => spec_call(
            r,
            bus,
            address as u16,
            operand_address(r, 1),
            false,
        ),
        Effect::Shift(op, target) => {
            let value = spec_target_value(target, r, bus);
            spec_store(
                target,
                spec_shift_result(op, value, r.spec_read_flag(FlagBit::C)),
                spec_shift_flags(op, r, value),
                bus,
                1,
            )
        },
        Effect::TestBit(bit, target) => done(
            advance(
                r.spec_write_flag(
                    FlagBit::Z,
                    !spec_read_bit(spec_target_value(target, r, bus), bit),
                ).spec_write_flag(FlagBit::N, false).spec_write_flag(FlagBit::H, true),
                1,
            ),
            bus,
        ),
        Effect::ResetBit(bit, target) => spec_store(
            target,
            spec_write_bit(spec_target_value(target, r, bus), bit, false),
            r,
            bus,
            1,
        ),
        Effect::SetBit(bit, target) => spec_store(
            target,
            spec_write_bit(spec_target_value(target, r, bus), bit, true),
            r,
            bus,
            1,
        ),
        Effect::Unimplemented => done(r, bus),
    }
}

/// Moves the program counter past an instruction of `length` bytes.
fn step_over(registers: &mut Registers, length: u16)
    ensures
        *final(registers) == advance(*old(registers), length as int),
{
    registers.program_counter = registers.program_counter.wrapping_add(length);
}

/// Reads the byte that follows the opcode.
fn fetch_byte<M: MemoryAccess>(registers: &Registers, memory: &M) -> (value: u8)
    ensures
        value == immediate_byte(*registers, memory.bus()),
{
    memory.read_byte(registers.program_counter.wrapping_add(1))
}

/// Reads the little-endian word that follows the opcode.
fn fetch_word<M: MemoryAccess>(registers: &Registers, memory: &M) -> (value: u16)
    ensures
        value == immediate_word(*registers, memory.bus()),
{
    memory.read_word(registers.program_counter.wrapping_add(1))
}

/// The address in the last page of memory that `offset` selects.
fn high_page(offset: u8) -> (address: u16)
    ensures
        address == high_address(offset),
{
    0xFF00 + offset as u16
}

/// Reads an eight-bit operand.
pub fn read_target<M: MemoryAccess>(
    target: Target,
    registers: &Registers,
    memory: &M,
) -> (value: u8)
    ensures
        value == spec_target_value(target, *registers, memory.bus()),
{
    match target {
        Target::B => registers.b,
        Target::C => registers.c,
        Target::D => registers.d,
        Target::E => registers.e,
        Target::H => registers.h,
        Target::L => registers.l,
        Target::HlIndirect => memory.read_byte(registers.pair(Pair::HL)),
        Target::A => registers.a,
    }
}

/// Stores `value` in an eight-bit operand.
pub fn write_target<M: MemoryAccess>(
    target: Target,
    value: u8,
    registers: &mut Registers,
    memory: &mut M,
)
    ensures
        *final(registers) == spec_store_registers(target, value, *old(registers)),
        final(memory).bus() == spec_store_bus(target, value, *old(registers), old(memory).bus()),
{
    match target {
        Target::B => {
            registers.b = value;
        },
        Target::C => {
            registers.c = value;
        },
        Target::D => {
            registers.d = value;
        },
        Target::E => {
            registers.e = value;
        },
        Target::H => {
            registers.h = value;
        },
        Target::L => {
            registers.l = value;
        },
        Target::HlIndirect => {
            memory.write_byte(registers.pair(Pair::HL), value);
        },
        Target::A => {
            registers.a = value;
        },
    }
}

/// The address that a pointer operand names; `HL` moves by one where the
/// operand says so.
fn take_pointer(pointer: Pointer, registers: &mut Registers) -> (address: u16)
    ensures
        address == spec_pointer_address(pointer, *old(registers)),
        *final(registers) == spec_pointer_adjust(pointer, *old(registers)),
{
    match pointer {
        Pointer::BC => registers.pair(Pair::BC),
        Pointer::DE => registers.pair(Pair::DE),
        Pointer::HlIncrement => {
            let hl: u16 = registers.pair(Pair::HL);
            registers.set_pair(Pair::HL, hl.wrapping_add(1));
            hl
        },
        Pointer::HlDecrement => {
            let hl: u16 = registers.pair(Pair::HL);
            registers.set_pair(Pair::HL, hl.wrapping_sub(1));
            hl
        },
    }
}

/// Pushes a word: the stack pointer goes down by one before each byte is
/// written, the high byte first.
pub fn push<M: MemoryAccess>(registers: &mut Registers, memory: &mut M, value: u16)
    ensures
        *final(registers) == spec_push_registers(*old(registers)),
        final(memory).bus() == spec_push_bus(*old(registers), old(memory).bus(), value),
{
    registers.stack_pointer = registers.stack_pointer.wrapping_sub(1);
    memory.write_byte(registers.stack_pointer, upper_eight_bits(value));
    registers.stack_pointer = registers.stack_pointer.wrapping_sub(1);
    memory.write_byte(registers.stack_pointer, lower_eight_bits(value));
}

/// Pops a word: the low byte is read at the stack pointer, the high byte
/// one above, and the stack pointer ends two higher.
pub fn pop<M: MemoryAccess>(registers: &mut Registers, memory: &M) -> (value: u16)
    ensures
        value == spec_stack_top(*old(registers), memory.bus()),
        *final(registers) == spec_pop_registers(*old(registers)),
{
    let value: u16 = memory.read_word(registers.stack_pointer);
    registers.stack_pointer = registers.stack_pointer.wrapping_add(2);
    value
}

/// Calls `target`, leaving `return_to` on the stack.
fn call<M: MemoryAccess>(registers: &mut Registers, memory: &mut M, target: u16, return_to: u16)
    ensures
        *final(registers) == spec_call(
            *old(registers),
            old(memory).bus(),
            target,
            return_to,
            false,
        ).registers,
        final(memory).bus() == spec_call(
            *old(registers),
            old(memory).bus(),
            target,
            return_to,
            false,
        ).bus,
{
    push(registers, memory, return_to);
    registers.program_counter = target;
}

/// Whether an effect is a jump, call, return or restart.
pub open spec fn is_transfer(effect: Effect) -> bool {
    match effect {
        Effect::JumpRelative
        | Effect::JumpRelativeIf(_)
        | Effect::ReturnIf(_)
        | Effect::Return
        | Effect::JumpToHl
        | Effect::JumpIf(_)
        | Effect::Jump
        | Effect::CallIf(_)
        | Effect::Call
        | Effect::Restart(_) => true,
        _ => false,
    }
}

/// Whether an effect is a load, store, push or pop.
pub open spec fn is_load(effect: Effect) -> bool {
    match effect {
        Effect::StoreStackPointer
        | Effect::LoadPairImmediate(_)
        | Effect::StoreAccumulator(_)
        | Effect::LoadAccumulator(_)
        | Effect::LoadImmediate(_)
        | Effect::Load(_, _)
        | Effect::StoreHighImmediate
        | Effect::LoadHighImmediate
        | Effect::Pop(_)
        | Effect::LoadStackPointerFromHl
        | Effect::StoreHighC
        | Effect::StoreAbsolute
        | Effect::LoadHighC
        | Effect::LoadAbsolute
        | Effect::Push(_) => true,
        _ => false,
    }
}

/// Whether an effect is an arithmetic or logic instruction on a byte.
pub open spec fn is_byte_arithmetic(effect: Effect) -> bool {
    match effect {
        Effect::Increment(_)
        | Effect::Decrement(_)
        | Effect::RotateAccumulator(_)
        | Effect::DecimalAdjust
        | Effect::Complement
        | Effect::SetCarry
        | Effect::ComplementCarry
        | Effect::Alu(_, _)
        | Effect::AluImmediate(_) => true,
        _ => false,
    }
}

/// Whether an effect is an arithmetic instruction on a word.
pub open spec fn is_word_arithmetic(effect: Effect) -> bool {
    match effect {
        Effect::AddToHl(_)
        | Effect::IncrementPair(_)
        | Effect::DecrementPair(_)
        | Effect::AddToStackPointer
        | Effect::LoadHlFromStackOffset => true,
        _ => false,
    }
}

/// Whether an effect is an instruction of the secondary table.
pub open spec fn is_bit_operation(effect: Effect) -> bool {
    match effect {
        Effect::Shift(_, _)
        | Effect::TestBit(_, _)
        | Effect::ResetBit(_, _)
        | Effect::SetBit(_, _) => true,
        _ => false,
    }
}

/// Carries out a jump, call, return or restart.
fn execute_transfer<M: MemoryAccess>(
    effect: Effect,
    registers: &mut Registers,
    memory: &mut M,
) -> (taken: bool)
    requires
        is_transfer(effect),
        effect_wf(effect),
    ensures
        spec_execute(effect, *old(registers), old(memory).bus()) == (Outcome {
            registers: *final(registers),
            bus: final(memory).bus(),
            taken,
        }),
{
    match effect {
        Effect::JumpRelative => {
            let offset: u8 = fetch_byte(registers, memory);
            registers.program_counter = offset_word(
                registers.program_counter.wrapping_add(2),
                offset,
            );
            false
        },
        Effect::JumpRelativeIf(condition) => {
            if registers.condition(condition) {
                let offset: u8 = fetch_byte(registers, memory);
                registers.program_counter = offset_word(
                    registers.program_counter.wrapping_add(2),
                    offset,
                );
                true
            } else {
                step_over(registers, 2);
                false
            }
        },
        Effect::ReturnIf(condition) => {
            if registers.condition(condition) {
                let target: u16 = pop(registers, memory);
                registers.program_counter = target;
                true
            } else {
                step_over(registers, 1);
                false
            }
        },
        Effect::Return => {
            let target: u16 = pop(registers, memory);
            registers.program_counter = target;
            false
        },
        Effect::JumpToHl => {
            registers.program_counter = registers.pair(Pair::HL);
            false
        },
        Effect::JumpIf(condition) => {
            if registers.condition(condition) {
                registers.program_counter = fetch_word(registers, memory);
                true
            } else {
                step_over(registers, 3);
                false
            }
        },
        Effect::Jump => {
            registers.program_counter = fetch_word(registers, memory);
            false
        },
        Effect::CallIf(condition) => {
            if registers.condition(condition) {
                let target: u16 = fetch_word(registers, memory);
                let return_to: u16 = registers.program_counter.wrapping_add(3);
                call(registers, memory, target, return_to);
                true
            } else {
                step_over(registers, 3);
                false
            }
        },
        Effect::Call => {
            let target: u16 = fetch_word(registers, memory);
            let return_to: u16 = registers.program_counter.wrapping_add(3);
            call(registers, memory, target, return_to);
            false
        },
        Effect::Restart(address) => {
            let return_to: u16 = registers.program_counter.wrapping_add(1);
            call(registers, memory, address as u16, return_to);
            false
        },
        _ => false,
    }
}

/// Carries out a load, store, push or pop.
fn execute_load<M: MemoryAccess>(
    effect: Effect,
    registers: &mut Registers,
    memory: &mut M,
) -> (taken: bool)
    requires
        is_load(effect),
        effect_wf(effect),
    ensures
        spec_execute(effect, *old(registers), old(memory).bus()) == (Outcome {
            registers: *final(registers),
            bus: final(memory).bus(),
            taken,
        }),
{
    match effect {
        Effect::StoreStackPointer => {
            let address: u16 = fetch_word(registers, memory);
            memory.write_word(address, registers.stack_pointer);
            step_over(registers, 3);
            false
        },
        Effect::LoadPairImmediate(pair) => {
            let value: u16 = fetch_word(registers, memory);
            registers.set_pair(pair, value);
            step_over(registers, 3);
            false
        },
        Effect::StoreAccumulator(pointer) => {
            let address: u16 = take_pointer(pointer, registers);
            memory.write_byte(address, registers.a);
            step_over(registers, 1);
            false
        },
        Effect::LoadAccumulator(pointer) => {
            let address: u16 = take_pointer(pointer, registers);
            registers.a = memory.read_byte(address);
            step_over(registers, 1);
            false
        },
        Effect::LoadImmediate(target) => {
            let value: u8 = fetch_byte(registers, memory);
            write_target(target, value, registers, memory);
            step_over(registers, 2);
            false
        },
        Effect::Load(destination, source) => {
            let value: u8 = read_target(source, registers, memory);
            write_target(destination, value, registers, memory);
            step_over(registers, 1);
            false
        },
        Effect::StoreHighImmediate => {
            let offset: u8 = fetch_byte(registers, memory);
            memory.write_byte(high_page(offset), registers.a);
            step_over(registers, 2);
            false
        },
        Effect::LoadHighImmediate => {
            let offset: u8 = fetch_byte(registers, memory);
            registers.a = memory.read_byte(high_page(offset));
            step_over(registers, 2);
            false
        },
        Effect::Pop(pair) => {
            let value: u16 = pop(registers, memory);
            registers.set_stack_pair(pair, value);
            step_over(registers, 1);
            false
        },
        Effect::LoadStackPointerFromHl => {
            registers.stack_pointer = registers.pair(Pair::HL);
            step_over(registers, 1);
            false
        },
        Effect::StoreHighC => {
            memory.write_byte(high_page(registers.c), registers.a);
            step_over(registers, 1);
            false
        },
        Effect::StoreAbsolute => {
            let address: u16 = fetch_word(registers, memory);
            memory.write_byte(address, registers.a);
            step_over(registers, 3);
            false
        },
        Effect::LoadHighC => {
            registers.a = memory.read_byte(high_page(registers.c));
            step_over(registers, 1);
            false
        },
        Effect::LoadAbsolute => {
            let address: u16 = fetch_word(registers, memory);
            registers.a = memory.read_byte(address);
            step_over(registers, 3);
            false
        },
        Effect::Push(pair) => {
            let value: u16 = registers.stack_pair(pair);
            push(registers, memory, value);
            step_over(registers, 1);
            false
        },
        _ => false,
    }
}

/// Carries out an arithmetic or logic instruction on a byte.
fn execute_byte_arithmetic<M: MemoryAccess>(
    effect: Effect,
    registers: &mut Registers,
    memory: &mut M,
) -> (taken: bool)
    requires
        is_byte_arithmetic(effect),
    ensures
        spec_execute(effect, *old(registers), old(memory).bus()) == (Outcome {
            registers: *final(registers),
            bus: final(memory).bus(),
            taken,
        }),
{
    match effect {
        Effect::Increment(target) => {
            let value: u8 = read_target(target, registers, memory);
            let result: u8 = increment(registers, value);
            write_target(target, result, registers, memory);
            step_over(registers, 1);
            false
        },
        Effect::Decrement(target) => {
            let value: u8 = read_target(target, registers, memory);
            let result: u8 = decrement(registers, value);
            write_target(target, result, registers, memory);
            step_over(registers, 1);
            false
        },
        Effect::RotateAccumulator(op) => {
            rotate_accumulator(op, registers);
            step_over(registers, 1);
            false
        },
        Effect::DecimalAdjust => {
            decimal_adjust(registers);
            step_over(registers, 1);
            false
        },
        Effect::Complement => {
            complement(registers);
            step_over(registers, 1);
            false
        },
        Effect::SetCarry => {
            write_carry(registers, true);
            step_over(registers, 1);
            false
        },
        Effect::ComplementCarry => {
            let carry: bool = registers.read_flag(FlagBit::C);
            write_carry(registers, !carry);
            step_over(registers, 1);
            false
        },
        Effect::Alu(op, source) => {
            let value: u8 = read_target(source, registers, memory);
            alu(op, registers, value);
            step_over(registers, 1);
            false
        },
        Effect::AluImmediate(op) => {
            let value: u8 = fetch_byte(registers, memory);
            alu(op, registers, value);
            step_over(registers, 2);
            false
        },
        _ => false,
    }
}

/// Adds a register pair to `HL`.
fn add_to_hl(pair: Pair, registers: &mut Registers)
    ensures
        *final(registers) == spec_add_to_hl(pair, *old(registers)),
{
    let left: u16 = registers.pair(Pair::HL);
    let right: u16 = registers.pair(pair);
    let sum: u16 = add_words(registers, left, right);
    registers.set_pair(Pair::HL, sum);
}

/// Adds one to a register pair.
fn increment_pair(pair: Pair, registers: &mut Registers)
    ensures
        *final(registers) == spec_step_pair(pair, *old(registers), 1),
{
    let value: u16 = registers.pair(pair);
    registers.set_pair(pair, value.wrapping_add(1));
}

/// Subtracts one from a register pair.
fn decrement_pair(pair: Pair, registers: &mut Registers)
    ensures
        *final(registers) == spec_step_pair(pair, *old(registers), -1),
{
    let value: u16 = registers.pair(pair);
    registers.set_pair(pair, value.wrapping_sub(1));
}

/// Adds the signed `offset` to the stack pointer.
fn add_to_stack_pointer(registers: &mut Registers, offset: u8)
    ensures
        *final(registers) == spec_add_to_stack_pointer(*old(registers), offset),
{
    let base: u16 = registers.stack_pointer;
    let moved: u16 = offset_stack_pointer(registers, base, offset);
    registers.stack_pointer = moved;
}

/// Loads `HL` with the stack pointer moved by the signed `offset`.
fn load_hl_from_stack_offset(registers: &mut Registers, offset: u8)
    ensures
        *final(registers) == spec_load_hl_from_stack_offset(*old(registers), offset),
{
    let base: u16 = registers.stack_pointer;
    let moved: u16 = offset_stack_pointer(registers, base, offset);
    registers.set_pair(Pair::HL, moved);
}

/// Carries out an arithmetic instruction on a word.
fn execute_word_arithmetic<M: MemoryAccess>(
    effect: Effect,
    registers: &mut Registers,
    memory: &mut M,
) -> (taken: bool)
    requires
        is_word_arithmetic(effect),
    ensures
        spec_execute(effect, *old(registers), old(memory).bus()) == (Outcome {
            registers: *final(registers),
            bus: final(memory).bus(),
            taken,
        }),
{
    match effect {
        Effect::AddToHl(pair) => {
            add_to_hl(pair, registers);
            step_over(registers, 1);
            false
        },
        Effect::IncrementPair(pair) => {
            increment_pair(pair, registers);
            step_over(registers, 1);
            false
        },
        Effect::DecrementPair(pair) => {
            decrement_pair(pair, registers);
            step_over(registers, 1);
            false
        },
        Effect::AddToStackPointer => {
            let offset: u8 = fetch_byte(registers, memory);
            add_to_stack_pointer(registers, offset);
            step_over(registers, 2);
            false
        },
        Effect::LoadHlFromStackOffset => {
            let offset: u8 = fetch_byte(registers, memory);
            load_hl_from_stack_offset(registers, offset);
            step_over(registers, 2);
            false
        },
        _ => false,
    }
}

/// Carries out an instruction of the secondary table.
fn execute_bits<M: MemoryAccess>(
    effect: Effect,
    registers: &mut Registers,
    memory: &mut M,
) -> (taken: bool)
    requires
        is_bit_operation(effect),
        effect_wf(effect),
    ensures
        spec_execute(effect, *old(registers), old(memory).bus()) == (Outcome {
            registers: *final(registers),
            bus: final(memory).bus(),
            taken,
        }),
{
    match effect {
        Effect::Shift(op, target) => {
            let value: u8 = read_target(target, registers, memory);
            let result: u8 = shift(op, registers, value);
            write_target(target, result, registers, memory);
            step_over(registers, 1);
            false
        },
        Effect::TestBit(bit, target) => {
            let value: u8 = read_target(target, registers, memory);
            registers.write_flag(FlagBit::Z, !read_bit(value, bit));
            registers.write_flag(FlagBit::N, false);
            registers.write_flag(FlagBit::H, true);
            step_over(registers, 1);
            false
        },
        Effect::ResetBit(bit, target) => {
            let value: u8 = read_target(target, registers, memory);
            write_target(target, write_bit(value, bit, false), registers, memory);
            step_over(registers, 1);
            false
        },
        Effect::SetBit(bit, target) => {
            let value: u8 = read_target(target, registers, memory);
            write_target(target, write_bit(value, bit, true), registers, memory);
            step_over(registers, 1);
            false
        },
        _ => false,
    }
}

/// Carries out an effect. The result says whether the effect was a
/// conditional jump, call or return whose condition held.
pub fn execute<M: MemoryAccess>(
    effect: Effect,
    registers: &mut Registers,
    memory: &mut M,
) -> (taken: bool)
    requires
        effect_wf(effect),
    ensures
        spec_execute(effect, *old(registers), old(memory).bus()) == (Outcome {
            registers: *final(registers),
            bus: final(memory).bus(),
            taken,
        }),
{
    match effect {
        Effect::Nop | Effect::Prefix => {
            step_over(registers, 1);
            false
        },
        Effect::Unimplemented => false,
        Effect::JumpRelative
        | Effect::JumpRelativeIf(_)
        | Effect::ReturnIf(_)
        | Effect::Return
        | Effect::JumpToHl
        | Effect::JumpIf(_)
        | Effect::Jump
        | Effect::CallIf(_)
        | Effect::Call
        | Effect::Restart(_) => execute_transfer(effect, registers, memory),
        Effect::StoreStackPointer
        | Effect::LoadPairImmediate(_)
        | Effect::StoreAccumulator(_)
        | Effect::LoadAccumulator(_)
        | Effect::LoadImmediate(_)
        | Effect::Load(_, _)
        | Effect::StoreHighImmediate
        | Effect::LoadHighImmediate
        | Effect::Pop(_)
        | Effect::LoadStackPointerFromHl
        | Effect::StoreHighC
        | Effect::StoreAbsolute
        | Effect::LoadHighC
        | Effect::LoadAbsolute
        | Effect::Push(_) => execute_load(effect, registers, memory),
        Effect::Increment(_)
        | Effect::Decrement(_)
        | Effect::RotateAccumulator(_)
        | Effect::DecimalAdjust
        | Effect::Complement
        | Effect::SetCarry
        | Effect::ComplementCarry
        | Effect::Alu(_, _)
        | Effect::AluImmediate(_) => execute_byte_arithmetic(effect, registers, memory),
        Effect::AddToHl(_)
        | Effect::IncrementPair(_)
        | Effect::DecrementPair(_)
        | Effect::AddToStackPointer
        | Effect::LoadHlFromStackOffset => execute_word_arithmetic(effect, registers, memory),
        Effect::Shift(_, _)
        | Effect::TestBit(_, _)
        | Effect::ResetBit(_, _)
        | Effect::SetBit(_, _) => execute_bits(effect, registers, memory),
    }
}

} // verus!
