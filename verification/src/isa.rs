//! The instruction set as data: what an opcode byte asks the processor to do,
//! and how many machine cycles it takes.
//!
//! An opcode is read as three bit fields, `xx yyy zzz`. The decoders below
//! follow that structure; the flat tables of the `tables` module are proved
//! to agree with them entry by entry.

use vstd::prelude::*;

verus! {

/// An eight-bit operand: one of the seven byte registers, or the byte in
/// memory that `HL` points at.
#[derive(Clone, Copy, Debug, PartialEq, Eq, Structural)]
pub enum Target {
    B,
    C,
    D,
    E,
    H,
    L,
    HlIndirect,
    A,
}

/// A sixteen-bit operand of the load and arithmetic instructions.
#[derive(Clone, Copy, Debug, PartialEq, Eq, Structural)]
pub enum Pair {
    BC,
    DE,
    HL,
    SP,
}

/// A sixteen-bit operand of `PUSH` and `POP`.
#[derive(Clone, Copy, Debug, PartialEq, Eq, Structural)]
pub enum StackPair {
    BC,
    DE,
    HL,
    AF,
}

/// The memory operand of the accumulator loads that go through a register
/// pair, with the adjustment of `HL` that two of them carry.
#[derive(Clone, Copy, Debug, PartialEq, Eq, Structural)]
pub enum Pointer {
    BC,
    DE,
    HlIncrement,
    HlDecrement,
}

/// The condition of a conditional jump, call or return.
#[derive(Clone, Copy, Debug, PartialEq, Eq, Structural)]
pub enum Condition {
    NotZero,
    Zero,
    NoCarry,
    Carry,
}

/// The eight operations between the accumulator and an eight-bit operand.
#[derive(Clone, Copy, Debug, PartialEq, Eq, Structural)]
pub enum AluOp {
    Add,
    Adc,
    Sub,
    Sbc,
    And,
    Xor,
    Or,
    Cp,
}

/// The eight rotations and shifts of the secondary table.
#[derive(Clone, Copy, Debug, PartialEq, Eq, Structural)]
pub enum ShiftOp {
    Rlc,
    Rrc,
    Rl,
    Rr,
    Sla,
    Sra,
    Swap,
    Srl,
}

/// What one table entry does. `Unimplemented` marks an entry without
/// behaviour: dispatching it is a decode error.
#[derive(Clone, Copy, Debug, PartialEq, Eq, Structural)]
pub enum Effect {
    /// `NOP`
    Nop,
    /// `LD (a16),SP`
    StoreStackPointer,
    /// `JR r8`
    JumpRelative,
    /// `JR cc,r8`
    JumpRelativeIf(Condition),
    /// `LD rr,d16`
    LoadPairImmediate(Pair),
    /// `ADD HL,rr`
    AddToHl(Pair),
    /// `LD (rr),A`, `LD (HL+),A`, `LD (HL-),A`
    StoreAccumulator(Pointer),
    /// `LD A,(rr)`, `LD A,(HL+)`, `LD A,(HL-)`
    LoadAccumulator(Pointer),
    /// `INC rr`
    IncrementPair(Pair),
    /// `DEC rr`
    DecrementPair(Pair),
    /// `INC r`
    Increment(Target),
    /// `DEC r`
    Decrement(Target),
    /// `LD r,d8`
    LoadImmediate(Target),
    /// `RLCA`, `RRCA`, `RLA`, `RRA`
    RotateAccumulator(ShiftOp),
    /// `DAA`
    DecimalAdjust,
    /// `CPL`
    Complement,
    /// `SCF`
    SetCarry,
    /// `CCF`
    ComplementCarry,
    /// `LD r,r'`: destination, then source
    Load(Target, Target),
    /// `ADD A,r` and its seven siblings
    Alu(AluOp, Target),
    /// `ADD A,d8` and its seven siblings
    AluImmediate(AluOp),
    /// `RET cc`
    ReturnIf(Condition),
    /// `LDH (a8),A`
    StoreHighImmediate,
    /// `ADD SP,r8`
    AddToStackPointer,
    /// `LDH A,(a8)`
    LoadHighImmediate,
    /// `LD HL,SP+r8`
    LoadHlFromStackOffset,
    /// `POP rr`
    Pop(StackPair),
    /// `RET`
    Return,
    /// `JP (HL)`
    JumpToHl,
    /// `LD SP,HL`
    LoadStackPointerFromHl,
    /// `JP cc,a16`
    JumpIf(Condition),
    /// `LD (C),A`
    StoreHighC,
    /// `LD (a16),A`
    StoreAbsolute,
    /// `LD A,(C)`
    LoadHighC,
    /// `LD A,(a16)`
    LoadAbsolute,
    /// `JP a16`
    Jump,
    /// The escape into the secondary table.
    Prefix,
    /// `CALL cc,a16`
    CallIf(Condition),
    /// `PUSH rr`
    Push(StackPair),
    /// `CALL a16`
    Call,
    /// `RST n`: the byte is the address called, a multiple of 8 below 0x40
    Restart(u8),
    /// A rotation or shift of the secondary table.
    Shift(ShiftOp, Target),
    /// `BIT b,r`
    TestBit(u8, Target),
    /// `RES b,r`
    ResetBit(u8, Target),
    /// `SET b,r`
    SetBit(u8, Target),
    /// No behaviour is defined for this entry.
    Unimplemented,
}

/// The eight-bit operand that the three-bit field `index` names.
pub open spec fn target_at(index: int) -> Target {
    if index == 0 {
        Target::B
    } else if index == 1 {
        Target::C
    } else if index == 2 {
        Target::D
    } else if index == 3 {
        Target::E
    } else if index == 4 {
        Target::H
    } else if index == 5 {
        Target::L
    } else if index == 6 {
        Target::HlIndirect
    } else {
        Target::A
    }
}

/// The register pair that the two-bit field `index` names.
pub open spec fn pair_at(index: int) -> Pair {
    if index == 0 {
        Pair::BC
    } else if index == 1 {
        Pair::DE
    } else if index == 2 {
        Pair::HL
    } else {
        Pair::SP
    }
}

/// The stack operand that the two-bit field `index` names.
pub open spec fn stack_pair_at(index: int) -> StackPair {
    if index == 0 {
        StackPair::BC
    } else if index == 1 {
        StackPair::DE
    } else if index == 2 {
        StackPair::HL
    } else {
        StackPair::AF
    }
}

/// The memory operand that the two-bit field `index` names.
pub open spec fn pointer_at(index: int) -> Pointer {
    if index == 0 {
        Pointer::BC
    } else if index == 1 {
        Pointer::DE
    } else if index == 2 {
        Pointer::HlIncrement
    } else {
        Pointer::HlDecrement
    }
}

/// The condition that the two-bit field `index` names.
pub open spec fn condition_at(index: int) -> Condition {
    if index == 0 {
        Condition::NotZero
    } else if index == 1 {
        Condition::Zero
    } else if index == 2 {
        Condition::NoCarry
    } else {
        Condition::Carry
    }
}

/// The accumulator operation that the three-bit field `index` names.
pub open spec fn alu_op_at(index: int) -> AluOp {
    if index == 0 {
        AluOp::Add
    } else if index == 1 {
        AluOp::Adc
    } else if index == 2 {
        AluOp::Sub
    } else if index == 3 {
        AluOp::Sbc
    } else if index == 4 {
        AluOp::And
    } else if index == 5 {
        AluOp::Xor
    } else if index == 6 {
        AluOp::Or
    } else {
        AluOp::Cp
    }
}

/// The rotation or shift that the three-bit field `index` names.
pub open spec fn shift_op_at(index: int) -> ShiftOp {
    if index == 0 {
        ShiftOp::Rlc
    } else if index == 1 {
        ShiftOp::Rrc
    } else if index == 2 {
        ShiftOp::Rl
    } else if index == 3 {
        ShiftOp::Rr
    } else if index == 4 {
        ShiftOp::Sla
    } else if index == 5 {
        ShiftOp::Sra
    } else if index == 6 {
        ShiftOp::Swap
    } else {
        ShiftOp::Srl
    }
}

/// Opcodes `0x00..=0x3F`, by their fields `y` and `z`. `STOP` has no
/// behaviour here.
pub open spec fn decode_low_quarter(y: int, z: int) -> Effect {
    if z == 0 {
        if y == 0 {
            Effect::Nop
        } else if y == 1 {
            Effect::StoreStackPointer
        } else if y == 2 {
            Effect::Unimplemented
        } else if y == 3 {
            Effect::JumpRelative
        } else {
            Effect::JumpRelativeIf(condition_at(y - 4))
        }
    } else if z == 1 {
        if y % 2 == 0 {
            Effect::LoadPairImmediate(pair_at(y / 2))
        } else {
            Effect::AddToHl(pair_at(y / 2))
        }
    } else if z == 2 {
        if y % 2 == 0 {
            Effect::StoreAccumulator(pointer_at(y / 2))
        } else {
            Effect::LoadAccumulator(pointer_at(y / 2))
        }
    } else if z == 3 {
        if y % 2 == 0 {
            Effect::IncrementPair(pair_at(y / 2))
        } else {
            Effect::DecrementPair(pair_at(y / 2))
        }
    } else if z == 4 {
        Effect::Increment(target_at(y))
    } else if z == 5 {
        Effect::Decrement(target_at(y))
    } else if z == 6 {
        Effect::LoadImmediate(target_at(y))
    } else if y < 4 {
        Effect::RotateAccumulator(shift_op_at(y))
    } else if y == 4 {
        Effect::DecimalAdjust
    } else if y == 5 {
        Effect::Complement
    } else if y == 6 {
        Effect::SetCarry
    } else {
        Effect::ComplementCarry
    }
}

/// Opcodes `0xC0..=0xFF`, by their fields `y` and `z`. The eleven holes of
/// the instruction set, and the instructions that need an interrupt
/// controller (`RETI`, `DI`, `EI`), have no behaviour.
pub open spec fn decode_high_quarter(y: int, z: int) -> Effect {
    if z == 0 {
        if y < 4 {
            Effect::ReturnIf(condition_at(y))
        } else if y == 4 {
            Effect::StoreHighImmediate
        } else if y == 5 {
            Effect::AddToStackPointer
        } else if y == 6 {
            Effect::LoadHighImmediate
        } else {
            Effect::LoadHlFromStackOffset
        }
    } else if z == 1 {
        if y % 2 == 0 {
            Effect::Pop(stack_pair_at(y / 2))
        } else if y == 1 {
            Effect::Return
        } else if y == 3 {
            Effect::Unimplemented
        } else if y == 5 {
            Effect::JumpToHl
        } else {
            Effect::LoadStackPointerFromHl
        }
    } else if z == 2 {
        if y < 4 {
            Effect::JumpIf(condition_at(y))
        } else if y == 4 {
            Effect::StoreHighC
        } else if y == 5 {
            Effect::StoreAbsolute
        } else if y == 6 {
            Effect::LoadHighC
        } else {
            Effect::LoadAbsolute
        }
    } else if z == 3 {
        if y == 0 {
            Effect::Jump
        } else if y == 1 {
            Effect::Prefix
        } else {
            Effect::Unimplemented
        }
    } else if z == 4 {
        if y < 4 {
            Effect::CallIf(condition_at(y))
        } else {
            Effect::Unimplemented
        }
    } else if z == 5 {
        if y % 2 == 0 {
            Effect::Push(stack_pair_at(y / 2))
        } else if y == 1 {
            Effect::Call
        } else {
            Effect::Unimplemented
        }
    } else if z == 6 {
        Effect::AluImmediate(alu_op_at(y))
    } else {
        Effect::Restart((8 * y) as u8)
    }
}

/// What the primary table's entry for `opcode` does. `HALT`, which sits
/// where `LD (HL),(HL)` would, has no behaviour.
pub open spec fn decode_primary(opcode: u8) -> Effect {
    let x = opcode as int / 64;
    let y = (opcode as int / 8) % 8;
    let z = opcode as int % 8;
    if x == 0 {
        decode_low_quarter(y, z)
    } else if x == 1 {
        if y == 6 && z == 6 {
            Effect::Unimplemented
        } else {
            Effect::Load(target_at(y), target_at(z))
        }
    } else if x == 2 {
        Effect::Alu(alu_op_at(y), target_at(z))
    } else {
        decode_high_quarter(y, z)
    }
}

/// What the secondary table's entry for `opcode` does. Every entry is
/// defined.
pub open spec fn decode_extended(opcode: u8) -> Effect {
    let x = opcode as int / 64;
    let y = (opcode as int / 8) % 8;
    let z = opcode as int % 8;
    if x == 0 {
        Effect::Shift(shift_op_at(y), target_at(z))
    } else if x == 1 {
        Effect::TestBit(y as u8, target_at(z))
    } else if x == 2 {
        Effect::ResetBit(y as u8, target_at(z))
    } else {
        Effect::SetBit(y as u8, target_at(z))
    }
}

/// 1 where the operand is the byte behind `HL`, whose access costs a
/// machine cycle, else 0.
pub open spec fn memory_cycles(target: Target) -> int {
    if target == Target::HlIndirect {
        1
    } else {
        0
    }
}

/// The machine cycles that an entry declares: those of the instruction when
/// no branch is taken. An entry of the secondary table declares its cycles
/// without the one that fetched the prefix.
pub open spec fn machine_cycles(effect: Effect) -> int {
    match effect {
        Effect::Nop => 1,
        Effect::StoreStackPointer => 5,
        Effect::JumpRelative => 3,
        Effect::JumpRelativeIf(_) => 2,
        Effect::LoadPairImmediate(_) => 3,
        Effect::AddToHl(_) => 2,
        Effect::StoreAccumulator(_) => 2,
        Effect::LoadAccumulator(_) => 2,
        Effect::IncrementPair(_) => 2,
        Effect::DecrementPair(_) => 2,
        Effect::Increment(target) => 1 + 2 * memory_cycles(target),
        Effect::Decrement(target) => 1 + 2 * memory_cycles(target),
        Effect::LoadImmediate(target) => 2 + memory_cycles(target),
        Effect::RotateAccumulator(_) => 1,
        Effect::DecimalAdjust => 1,
        Effect::Complement => 1,
        Effect::SetCarry => 1,
        Effect::ComplementCarry => 1,
        Effect::Load(destination, source) => 1 + memory_cycles(destination) + memory_cycles(
            source,
        ),
        Effect::Alu(_, source) => 1 + memory_cycles(source),
        Effect::AluImmediate(_) => 2,
        Effect::ReturnIf(_) => 2,
        Effect::StoreHighImmediate => 3,
        Effect::AddToStackPointer => 4,
        Effect::LoadHighImmediate => 3,
        Effect::LoadHlFromStackOffset => 3,
        Effect::Pop(_) => 3,
        Effect::Return => 4,
        Effect::JumpToHl => 1,
        Effect::LoadStackPointerFromHl => 2,
        Effect::JumpIf(_) => 3,
        Effect::StoreHighC => 2,
        Effect::StoreAbsolute => 4,
        Effect::LoadHighC => 2,
        Effect::LoadAbsolute => 4,
        Effect::Jump => 4,
        Effect::Prefix => 1,
        Effect::CallIf(_) => 3,
        Effect::Push(_) => 4,
        Effect::Call => 6,
        Effect::Restart(_) => 4,
        Effect::Shift(_, target) => 1 + 2 * memory_cycles(target),
        Effect::TestBit(_, target) => 1 + memory_cycles(target),
        Effect::ResetBit(_, target) => 1 + 2 * memory_cycles(target),
        Effect::SetBit(_, target) => 1 + 2 * memory_cycles(target),
        Effect::Unimplemented => 0,
    }
}

/// The machine cycles that a conditional jump, call or return takes on top
/// of those it declares when its condition holds; 0 for every other effect.
pub open spec fn branch_cycles(effect: Effect) -> int {
    match effect {
        Effect::JumpRelativeIf(_) => 1,
        Effect::JumpIf(_) => 1,
        Effect::CallIf(_) => 3,
        Effect::ReturnIf(_) => 3,
        _ => 0,
    }
}

/// The cost of one instruction: machine cycles `m`, clock cycles `t`.
#[derive(Clone, Copy, Debug, PartialEq, Eq, Structural)]
pub struct TimeIncrement {
    pub m: u8,
    pub t: u8,
}

/// One entry of an instruction table.
#[derive(Clone, Copy, Debug)]
pub struct Instruction {
    /// The instruction's name, for diagnostics only.
    pub mnemonic: &'static str,
    /// The cost that the entry declares.
    pub time_increment: TimeIncrement,
    /// What the entry does.
    pub effect: Effect,
}

impl Default for TimeIncrement {
    /// No time at all.
    fn default() -> (time: TimeIncrement)
        ensures
            time == (TimeIncrement { m: 0, t: 0 }),
    {
        TimeIncrement { m: 0, t: 0 }
    }
}

impl Default for Instruction {
    /// The entry of an opcode without behaviour.
    fn default() -> (entry: Instruction)
        ensures
            entry_declares(entry, Effect::Unimplemented),
    {
        proof {
            reveal_strlit("Unimplemented");
        }
        Instruction {
            mnemonic: "Unimplemented",
            time_increment: TimeIncrement { m: 0, t: 0 },
            effect: Effect::Unimplemented,
        }
    }
}

/// What the entry for an opcode must hold, given what the opcode decodes to:
/// that effect, its declared cost with four clock cycles to the machine
/// cycle, and a name.
pub open spec fn entry_declares(entry: Instruction, effect: Effect) -> bool {
    &&& entry.effect == effect
    &&& entry.time_increment.m == machine_cycles(effect)
    &&& entry.time_increment.t == 4 * machine_cycles(effect)
    &&& entry.mnemonic@.len() > 0
}

} // verus!
