//! The processor: a register file, the two instruction tables, and the
//! fetch-decode-execute step.

use vstd::prelude::*;
use crate::alu::{
    lemma_byte_operations_clear_unused_flag_bits, lemma_word_operations_clear_unused_flag_bits,
    sign_extend,
};
use crate::bits::{
    lemma_split_then_join, spec_lower_eight_bits, spec_read_bit, spec_upper_eight_bits,
};
use crate::execute::{
    advance, effect_wf, execute, immediate_byte, is_bit_operation, is_byte_arithmetic, is_load,
    is_transfer, is_word_arithmetic, operand_address, spec_execute, spec_stack_top,
    spec_target_value,
};
use crate::isa::{
    branch_cycles, decode_extended, decode_primary, machine_cycles, AluOp, Effect, Pair, ShiftOp,
    StackPair, Target,
};
pub use crate::isa::{Instruction, TimeIncrement};
use crate::memory::{
    bus_read, bus_write, lemma_write_then_read_byte, next_address, BusState, MemoryAccess,
};
use crate::registers::{lemma_written_flag_clears_unused_bits, FlagBit};
pub use crate::registers::Registers;
use crate::tables::{is_extended_table, is_primary_table};
pub use crate::tables::{cb_instructions, instructions};

verus! {

/// An opcode without behaviour was fetched. The processor cannot go on.
#[derive(Clone, Copy, Debug, PartialEq, Eq, Structural)]
pub struct DecodeError {
    /// The byte that has no behaviour.
    pub opcode: u8,
    /// The address it was fetched from.
    pub address: u16,
    /// Whether it was looked up in the secondary table, behind the escape
    /// opcode.
    pub extended: bool,
}

/// The processor.
pub struct Cpu {
    registers: Registers,
    instruction_bank: [Instruction; 256],
    cb_instruction_bank: [Instruction; 256],
}

/// What one step leaves: the registers, the bus, and the time it took.
pub ghost struct Step {
    pub registers: Registers,
    pub bus: BusState,
    pub time: TimeIncrement,
}

/// The cost of `machine` machine cycles: four clock cycles to each.
pub open spec fn spec_time(machine: int) -> TimeIncrement {
    TimeIncrement { m: machine as u8, t: (4 * machine) as u8 }
}

/// The machine cycles of an effect whose outcome is known: those that its
/// entry declares, and those of the branch where one was taken.
pub open spec fn cycles_taken(effect: Effect, taken: bool) -> int {
    machine_cycles(effect) + if taken {
        branch_cycles(effect)
    } else {
        0
    }
}

/// What one step makes of the registers and the bus.
///
/// The opcode at the program counter is decoded. An opcode without
/// behaviour is an error. The escape opcode takes the next byte through the
/// secondary table, and the step costs both entries' cycles. Every other
/// opcode has its effect, and costs what its entry declares, more where a
/// conditional transfer is taken.
pub open spec fn spec_step(registers: Registers, bus: BusState) -> Result<Step, DecodeError> {
    let opcode = bus_read(bus, registers.program_counter);
    let effect = decode_primary(opcode);
    if effect == Effect::Unimplemented {
        Err(DecodeError { opcode, address: registers.program_counter, extended: false })
    } else if effect == Effect::Prefix {
        let second = immediate_byte(registers, bus);
        let inner = decode_extended(second);
        if inner == Effect::Unimplemented {
            Err(DecodeError { opcode: second, address: operand_address(registers, 1), extended: true })
        } else {
            let outcome = spec_execute(inner, advance(registers, 1), bus);
            Ok(
                Step {
                    registers: outcome.registers,
                    bus: outcome.bus,
                    time: spec_time(machine_cycles(effect) + machine_cycles(inner)),
                },
            )
        }
    } else {
        let outcome = spec_execute(effect, registers, bus);
        Ok(
            Step {
                registers: outcome.registers,
                bus: outcome.bus,
                time: spec_time(cycles_taken(effect, outcome.taken)),
            },
        )
    }
}

/// Every decoded effect can be carried out and costs at most six machine
/// cycles, nine with a branch taken; the secondary table has no entry
/// without behaviour and no escape.
pub proof fn lemma_decoded_effects(opcode: u8)
    ensures
        effect_wf(decode_primary(opcode)),
        effect_wf(decode_extended(opcode)),
        0 <= machine_cycles(decode_primary(opcode)) <= 6,
        0 <= branch_cycles(decode_primary(opcode)) <= 3,
        1 <= machine_cycles(decode_extended(opcode)) <= 3,
        decode_extended(opcode) != Effect::Unimplemented,
        decode_extended(opcode) != Effect::Prefix,
        decode_primary(opcode) != Effect::Unimplemented ==> machine_cycles(decode_primary(opcode))
            >= 1,
{
}

/// A step that succeeds takes from one to nine machine cycles, and four
/// clock cycles to each.
pub proof fn lemma_step_takes_time(registers: Registers, bus: BusState)
    ensures
        spec_step(registers, bus) matches Ok(step) ==> 1 <= step.time.m <= 9 && step.time.t == 4
            * step.time.m,
{
    lemma_decoded_effects(bus_read(bus, registers.program_counter));
    lemma_decoded_effects(immediate_byte(registers, bus));
}

/// The cost of an effect whose outcome is known.
fn time_taken(declared: TimeIncrement, effect: Effect, taken: bool) -> (time: TimeIncrement)
    requires
        declared.m == machine_cycles(effect),
        declared.t == 4 * machine_cycles(effect),
        0 <= machine_cycles(effect) <= 6,
    ensures
        time == spec_time(cycles_taken(effect, taken)),
{
    if !taken {
        return declared;
    }
    match effect {
        Effect::JumpRelativeIf(_) | Effect::JumpIf(_) => TimeIncrement {
            m: declared.m + 1,
            t: declared.t + 4,
        },
        Effect::CallIf(_) | Effect::ReturnIf(_) => TimeIncrement {
            m: declared.m + 3,
            t: declared.t + 12,
        },
        _ => declared,
    }
}

impl View for Cpu {
    type V = Registers;

    /// A processor is seen as its register file.
    closed spec fn view(&self) -> Registers {
        self.registers
    }
}

impl Cpu {
    /// The two tables of a processor are the instruction set's.
    #[verifier::type_invariant]
    spec fn tables_hold_the_instruction_set(&self) -> bool {
        &&& is_primary_table(self.instruction_bank)
        &&& is_extended_table(self.cb_instruction_bank)
    }

    /// The processor at reset: every register zero, so that the first
    /// opcode is fetched at address 0.
    pub fn initialize() -> (cpu: Cpu)
        ensures
            cpu@ == (Registers {
                a: 0,
                b: 0,
                c: 0,
                d: 0,
                e: 0,
                f: 0,
                g: 0,
                h: 0,
                l: 0,
                program_counter: 0,
                stack_pointer: 0,
            }),
    {
        Cpu {
            registers: Registers::default(),
            instruction_bank: instructions(),
            cb_instruction_bank: cb_instructions(),
        }
    }

    /// The register file.
    pub fn registers(&self) -> (registers: Registers)
        ensures
            registers == self@,
    {
        self.registers
    }

    /// Replaces the register file.
    pub fn set_registers(&mut self, registers: Registers)
        ensures
            final(self)@ == registers,
    {
        proof {
            use_type_invariant(&*self);
        }
        self.registers = registers;
    }

    /// Executes the one instruction at the program counter and returns the
    /// time it took. An opcode without behaviour is returned as an error,
    /// and then neither the registers nor the bus have changed.
    pub fn step<M: MemoryAccess>(&mut self, memory: &mut M) -> (result: Result<
        TimeIncrement,
        DecodeError,
    >)
        ensures
            match result {
                Ok(time) => spec_step(old(self)@, old(memory).bus()) == Ok::<Step, DecodeError>(
                    Step { registers: final(self)@, bus: final(memory).bus(), time },
                ),
                Err(error) => {
                    &&& spec_step(old(self)@, old(memory).bus()) == Err::<Step, DecodeError>(error)
                    &&& final(self)@ == old(self)@
                    &&& final(memory).bus() == old(memory).bus()
                },
            },
    {
        proof {
            use_type_invariant(&*self);
        }
        let address: u16 = self.registers.program_counter;
        let opcode: u8 = memory.read_byte(address);
        let instruction: Instruction = self.instruction_bank[opcode as usize];
        proof {
            lemma_decoded_effects(opcode);
        }
        match instruction.effect {
            Effect::Unimplemented => Err(DecodeError { opcode, address, extended: false }),
            Effect::Prefix => {
                let second_address: u16 = address.wrapping_add(1);
                let second: u8 = memory.read_byte(second_address);
                let inner: Instruction = self.cb_instruction_bank[second as usize];
                proof {
                    lemma_decoded_effects(second);
                }
                match inner.effect {
                    Effect::Unimplemented => Err(
                        DecodeError { opcode: second, address: second_address, extended: true },
                    ),
                    effect => {
                        let mut registers: Registers = self.registers;
                        execute(Effect::Prefix, &mut registers, memory);
                        execute(effect, &mut registers, memory);
                        self.registers = registers;
                        Ok(
                            TimeIncrement {
                                m: instruction.time_increment.m + inner.time_increment.m,
                                t: instruction.time_increment.t + inner.time_increment.t,
                            },
                        )
                    },
                }
            },
            effect => {
                let mut registers: Registers = self.registers;
                let taken: bool = execute(effect, &mut registers, memory);
                self.registers = registers;
                Ok(time_taken(instruction.time_increment, effect, taken))
            },
        }
    }
}

/// Pushing a register pair and then popping into the same pair leaves every
/// register and the stack pointer as they were, whatever the stack pointer
/// is; the program counter has moved past the two one-byte instructions, and
/// of the flags byte only the four flags come back.
pub proof fn lemma_push_then_pop(pair: StackPair, registers: Registers, bus: BusState)
    requires
        bus.wf(),
    ensures
        ({
            let pushed = spec_execute(Effect::Push(pair), registers, bus);
            let popped = spec_execute(Effect::Pop(pair), pushed.registers, pushed.bus);
            &&& popped.registers == Registers {
                f: if pair == StackPair::AF {
                    (registers.f - registers.f % 16) as u8
                } else {
                    registers.f
                },
                program_counter: operand_address(registers, 2),
                ..registers
            }
            &&& popped.bus == pushed.bus
        }),
{
    let value = registers.spec_stack_pair(pair);
    let high_at = ((registers.stack_pointer - 1) % 0x10000) as u16;
    let low_at = ((registers.stack_pointer - 2) % 0x10000) as u16;
    let high = spec_upper_eight_bits(value);
    let low = spec_lower_eight_bits(value);
    let after_high = bus_write(bus, high_at, high);
    let after_low = bus_write(after_high, low_at, low);
    lemma_write_then_read_byte(bus, high_at, high);
    lemma_write_then_read_byte(after_high, low_at, low);
    assert(bus_read(after_low, high_at) == high);
    assert(next_address(low_at) == high_at);
    lemma_split_then_join(value, 0, 0);
    let pushed = spec_execute(Effect::Push(pair), registers, bus);
    assert(spec_stack_top(pushed.registers, pushed.bus) == value);
}

/// `XOR A` clears the accumulator, sets the zero flag and clears the other
/// three, whatever the flags were.
pub proof fn lemma_xor_accumulator(registers: Registers, bus: BusState)
    ensures
        ({
            let after = spec_execute(Effect::Alu(AluOp::Xor, Target::A), registers, bus).registers;
            &&& after.a == 0
            &&& after.f == 0x80
            &&& after.spec_read_flag(FlagBit::Z)
            &&& !after.spec_read_flag(FlagBit::N)
            &&& !after.spec_read_flag(FlagBit::H)
            &&& !after.spec_read_flag(FlagBit::C)
            &&& after == Registers {
                a: 0,
                f: 0x80,
                program_counter: operand_address(registers, 1),
                ..registers
            }
        }),
{
    let a = registers.a;
    assert(a ^ a == 0) by (bit_vector);
}

/// `JR r8` at address `P` leaves the program counter at `P + 2` plus the
/// signed byte at `P + 1`, wrapping at both ends of the address space, and
/// changes nothing else.
pub proof fn lemma_jump_relative(registers: Registers, bus: BusState)
    ensures
        ({
            let after = spec_execute(Effect::JumpRelative, registers, bus);
            let offset = sign_extend(bus_read(bus, operand_address(registers, 1)));
            &&& after.registers.program_counter == (registers.program_counter + 2 + offset)
                % 0x10000
            &&& after.registers == Registers {
                program_counter: after.registers.program_counter,
                ..registers
            }
            &&& after.bus == bus
            &&& -128 <= offset <= 127
        }),
{
}

/// A jump, call, return or restart leaves the flags byte as it was.
proof fn lemma_transfers_keep_flags(effect: Effect, registers: Registers, bus: BusState)
    requires
        is_transfer(effect),
    ensures
        spec_execute(effect, registers, bus).registers.f == registers.f,
{
}

/// A load, store, push or pop leaves the flags byte as it was, but for the
/// pop that loads it, which keeps the four flags only.
proof fn lemma_loads_keep_unused_flag_bits_clear(effect: Effect, registers: Registers, bus: BusState)
    requires
        is_load(effect),
    ensures
        ({
            let after = spec_execute(effect, registers, bus).registers;
            after.f == registers.f || after.f % 16 == 0
        }),
{
    if effect == Effect::Pop(StackPair::AF) {
        let low = spec_lower_eight_bits(spec_stack_top(registers, bus));
        assert((low - low % 16) % 16 == 0);
    }
}

/// An arithmetic or logic instruction on a byte leaves the low four bits of
/// the flags byte zero.
proof fn lemma_byte_arithmetic_clears_unused_flag_bits(
    effect: Effect,
    registers: Registers,
    bus: BusState,
)
    requires
        is_byte_arithmetic(effect),
    ensures
        spec_execute(effect, registers, bus).registers.f % 16 == 0,
{
    let r = registers;
    match effect {
        Effect::Increment(target) | Effect::Decrement(target) => {
            lemma_byte_operations_clear_unused_flag_bits(
                r,
                spec_target_value(target, r, bus),
                AluOp::Add,
                ShiftOp::Rlc,
                false,
            );
        },
        Effect::RotateAccumulator(op) => {
            lemma_byte_operations_clear_unused_flag_bits(r, 0, AluOp::Add, op, false);
        },
        Effect::SetCarry => {
            lemma_byte_operations_clear_unused_flag_bits(r, 0, AluOp::Add, ShiftOp::Rlc, true);
        },
        Effect::ComplementCarry => {
            lemma_byte_operations_clear_unused_flag_bits(
                r,
                0,
                AluOp::Add,
                ShiftOp::Rlc,
                !r.spec_read_flag(FlagBit::C),
            );
        },
        Effect::Alu(op, source) => {
            lemma_byte_operations_clear_unused_flag_bits(
                r,
                spec_target_value(source, r, bus),
                op,
                ShiftOp::Rlc,
                false,
            );
        },
        Effect::AluImmediate(op) => {
            lemma_byte_operations_clear_unused_flag_bits(
                r,
                immediate_byte(r, bus),
                op,
                ShiftOp::Rlc,
                false,
            );
        },
        _ => {
            lemma_byte_operations_clear_unused_flag_bits(r, 0, AluOp::Add, ShiftOp::Rlc, false);
        },
    }
}

/// An arithmetic instruction on a word leaves the flags byte as it was, or
/// its low four bits zero.
proof fn lemma_word_arithmetic_keeps_unused_flag_bits_clear(
    effect: Effect,
    registers: Registers,
    bus: BusState,
)
    requires
        is_word_arithmetic(effect),
    ensures
        ({
            let after = spec_execute(effect, registers, bus).registers;
            after.f == registers.f || after.f % 16 == 0
        }),
{
    let r = registers;
    match effect {
        Effect::AddToHl(pair) => {
            lemma_word_operations_clear_unused_flag_bits(
                r,
                r.spec_pair(Pair::HL),
                r.spec_pair(pair),
                0,
            );
        },
        Effect::AddToStackPointer | Effect::LoadHlFromStackOffset => {
            lemma_word_operations_clear_unused_flag_bits(
                r,
                r.stack_pointer,
                0,
                immediate_byte(r, bus),
            );
        },
        _ => {},
    }
}

/// An instruction of the secondary table leaves the flags byte as it was,
/// or its low four bits zero.
proof fn lemma_bit_operations_keep_unused_flag_bits_clear(
    effect: Effect,
    registers: Registers,
    bus: BusState,
)
    requires
        is_bit_operation(effect),
    ensures
        ({
            let after = spec_execute(effect, registers, bus).registers;
            after.f == registers.f || after.f % 16 == 0
        }),
{
    let r = registers;
    match effect {
        Effect::Shift(op, target) => {
            lemma_byte_operations_clear_unused_flag_bits(
                r,
                spec_target_value(target, r, bus),
                AluOp::Add,
                op,
                false,
            );
        },
        Effect::TestBit(bit, target) => {
            let tested = r.spec_write_flag(
                FlagBit::Z,
                !spec_read_bit(spec_target_value(target, r, bus), bit),
            ).spec_write_flag(FlagBit::N, false);
            lemma_written_flag_clears_unused_bits(tested, FlagBit::H, true);
        },
        _ => {},
    }
}

/// No effect leaves anything in the low four bits of the flags byte: the
/// byte is as it was, or its low four bits are zero.
pub proof fn lemma_effects_keep_unused_flag_bits_clear(
    effect: Effect,
    registers: Registers,
    bus: BusState,
)
    ensures
        ({
            let after = spec_execute(effect, registers, bus).registers;
            after.f == registers.f || after.f % 16 == 0
        }),
{
    if is_transfer(effect) {
        lemma_transfers_keep_flags(effect, registers, bus);
    } else if is_load(effect) {
        lemma_loads_keep_unused_flag_bits_clear(effect, registers, bus);
    } else if is_byte_arithmetic(effect) {
        lemma_byte_arithmetic_clears_unused_flag_bits(effect, registers, bus);
    } else if is_word_arithmetic(effect) {
        lemma_word_arithmetic_keeps_unused_flag_bits_clear(effect, registers, bus);
    } else if is_bit_operation(effect) {
        lemma_bit_operations_keep_unused_flag_bits_clear(effect, registers, bus);
    }
}

/// Once the low four bits of the flags byte are zero, as they are at reset,
/// they stay zero with every step.
pub proof fn lemma_step_keeps_unused_flag_bits_clear(registers: Registers, bus: BusState)
    requires
        registers.f % 16 == 0,
    ensures
        spec_step(registers, bus) matches Ok(step) ==> step.registers.f % 16 == 0,
{
    lemma_effects_keep_unused_flag_bits_clear(
        decode_primary(bus_read(bus, registers.program_counter)),
        registers,
        bus,
    );
    lemma_effects_keep_unused_flag_bits_clear(
        decode_extended(immediate_byte(registers, bus)),
        advance(registers, 1),
        bus,
    );
}

} // verus!
