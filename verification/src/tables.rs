//! The two flat instruction tables: 256 primary entries, and 256 secondary
//! entries behind the escape opcode `0xCB`.
//!
//! Each entry is written out: its name, the cost it declares and its effect.
//! Every entry is proved to be the one that the decoders of the `isa` module
//! give for its opcode, so no table has a gap, and an opcode without
//! behaviour is marked as such.

use vstd::prelude::*;
use crate::isa::{
    decode_extended, decode_primary, entry_declares, AluOp, Condition, Effect, Instruction, Pair,
    Pointer, ShiftOp, StackPair, Target, TimeIncrement,
};

verus! {

/// Whether `table` is the primary table: for each opcode, the entry that the
/// opcode decodes to.
pub open spec fn is_primary_table(table: [Instruction; 256]) -> bool {
    forall|opcode: u8| entry_declares(#[trigger] table[opcode as int], decode_primary(opcode))
}

/// Whether `table` is the secondary table.
pub open spec fn is_extended_table(table: [Instruction; 256]) -> bool {
    forall|opcode: u8| entry_declares(#[trigger] table[opcode as int], decode_extended(opcode))
}

/// Opcodes `0x00..=0x3F`: loads of immediates, sixteen-bit arithmetic, increments,
/// decrements, the accumulator rotations and the relative jumps.
#[verifier::rlimit(40)]
fn primary_low_quarter(opcode: u8) -> (entry: Instruction)
    requires
        opcode < 0x40,
    ensures
        entry_declares(entry, decode_primary(opcode)),
{
    match opcode {
        0x00 => {
            proof {
                reveal_strlit("NOP");
            }
            Instruction { mnemonic: "NOP", time_increment: TimeIncrement { m: 1, t: 4 }, effect: Effect::Nop }
        },
        0x01 => {
            proof {
                reveal_strlit("LD BC,d16");
            }
            Instruction { mnemonic: "LD BC,d16", time_increment: TimeIncrement { m: 3, t: 12 }, effect: Effect::LoadPairImmediate(Pair::BC) }
        },
        0x02 => {
            proof {
                reveal_strlit("LD (BC),A");
            }
            Instruction { mnemonic: "LD (BC),A", time_increment: TimeIncrement { m: 2, t: 8 }, effect: Effect::StoreAccumulator(Pointer::BC) }
        },
        0x03 => {
            proof {
                reveal_strlit("INC BC");
            }
            Instruction { mnemonic: "INC BC", time_increment: TimeIncrement { m: 2, t: 8 }, effect: Effect::IncrementPair(Pair::BC) }
        },
        0x04 => {
            proof {
                reveal_strlit("INC B");
            }
            Instruction { mnemonic: "INC B", time_increment: TimeIncrement { m: 1, t: 4 }, effect: Effect::Increment(Target::B) }
        },
        0x05 => {
            proof {
                reveal_strlit("DEC B");
            }
            Instruction { mnemonic: "DEC B", time_increment: TimeIncrement { m: 1, t: 4 }, effect: Effect::Decrement(Target::B) }
        },
        0x06 => {
            proof {
                reveal_strlit("LD B,d8");
            }
            Instruction { mnemonic: "LD B,d8", time_increment: TimeIncrement { m: 2, t: 8 }, effect: Effect::LoadImmediate(Target::B) }
        },
        0x07 => {
            proof {
                reveal_strlit("RLCA");
            }
            Instruction { mnemonic: "RLCA", time_increment: TimeIncrement { m: 1, t: 4 }, effect: Effect::RotateAccumulator(ShiftOp::Rlc) }
        },
        0x08 => {
            proof {
                reveal_strlit("LD (a16),SP");
            }
            Instruction { mnemonic: "LD (a16),SP", time_increment: TimeIncrement { m: 5, t: 20 }, effect: Effect::StoreStackPointer }
        },
        0x09 => {
            proof {
                reveal_strlit("ADD HL,BC");
            }
            Instruction { mnemonic: "ADD HL,BC", time_increment: TimeIncrement { m: 2, t: 8 }, effect: Effect::AddToHl(Pair::BC) }
        },
        0x0A => {
            proof {
                reveal_strlit("LD A,(BC)");
            }
            Instruction { mnemonic: "LD A,(BC)", time_increment: TimeIncrement { m: 2, t: 8 }, effect: Effect::LoadAccumulator(Pointer::BC) }
        },
        0x0B => {
            proof {
                reveal_strlit("DEC BC");
            }
            Instruction { mnemonic: "DEC BC", time_increment: TimeIncrement { m: 2, t: 8 }, effect: Effect::DecrementPair(Pair::BC) }
        },
        0x0C => {
            proof {
                reveal_strlit("INC C");
            }
            Instruction { mnemonic: "INC C", time_increment: TimeIncrement { m: 1, t: 4 }, effect: Effect::Increment(Target::C) }
        },
        0x0D => {
            proof {
                reveal_strlit("DEC C");
            }
            Instruction { mnemonic: "DEC C", time_increment: TimeIncrement { m: 1, t: 4 }, effect: Effect::Decrement(Target::C) }
        },
        0x0E => {
            proof {
                reveal_strlit("LD C,d8");
            }
            Instruction { mnemonic: "LD C,d8", time_increment: TimeIncrement { m: 2, t: 8 }, effect: Effect::LoadImmediate(Target::C) }
        },
        0x0F => {
            proof {
                reveal_strlit("RRCA");
            }
            Instruction { mnemonic: "RRCA", time_increment: TimeIncrement { m: 1, t: 4 }, effect: Effect::RotateAccumulator(ShiftOp::Rrc) }
        },
        0x10 => {
            proof {
                reveal_strlit("STOP 0");
            }
            Instruction { mnemonic: "STOP 0", time_increment: TimeIncrement { m: 0, t: 0 }, effect: Effect::Unimplemented }
        },
        0x11 => {
            proof {
                reveal_strlit("LD DE,d16");
            }
            Instruction { mnemonic: "LD DE,d16", time_increment: TimeIncrement { m: 3, t: 12 }, effect: Effect::LoadPairImmediate(Pair::DE) }
        },
        0x12 => {
            proof {
                reveal_strlit("LD (DE),A");
            }
            Instruction { mnemonic: "LD (DE),A", time_increment: TimeIncrement { m: 2, t: 8 }, effect: Effect::StoreAccumulator(Pointer::DE) }
        },
        0x13 => {
            proof {
                reveal_strlit("INC DE");
            }
            Instruction { mnemonic: "INC DE", time_increment: TimeIncrement { m: 2, t: 8 }, effect: Effect::IncrementPair(Pair::DE) }
        },
        0x14 => {
            proof {
                reveal_strlit("INC D");
            }
            Instruction { mnemonic: "INC D", time_increment: TimeIncrement { m: 1, t: 4 }, effect: Effect::Increment(Target::D) }
        },
        0x15 => {
            proof {
                reveal_strlit("DEC D");
            }
            Instruction { mnemonic: "DEC D", time_increment: TimeIncrement { m: 1, t: 4 }, effect: Effect::Decrement(Target::D) }
        },
        0x16 => {
            proof {
                reveal_strlit("LD D,d8");
            }
            Instruction { mnemonic: "LD D,d8", time_increment: TimeIncrement { m: 2, t: 8 }, effect: Effect::LoadImmediate(Target::D) }
        },
        0x17 => {
            proof {
                reveal_strlit("RLA");
            }
            Instruction { mnemonic: "RLA", time_increment: TimeIncrement { m: 1, t: 4 }, effect: Effect::RotateAccumulator(ShiftOp::Rl) }
        },
        0x18 => {
            proof {
                reveal_strlit("JR r8");
            }
            Instruction { mnemonic: "JR r8", time_increment: TimeIncrement { m: 3, t: 12 }, effect: Effect::JumpRelative }
        },
        0x19 => {
            proof {
                reveal_strlit("ADD HL,DE");
            }
            Instruction { mnemonic: "ADD HL,DE", time_increment: TimeIncrement { m: 2, t: 8 }, effect: Effect::AddToHl(Pair::DE) }
        },
        0x1A => {
            proof {
                reveal_strlit("LD A,(DE)");
            }
            Instruction { mnemonic: "LD A,(DE)", time_increment: TimeIncrement { m: 2, t: 8 }, effect: Effect::LoadAccumulator(Pointer::DE) }
        },
        0x1B => {
            proof {
                reveal_strlit("DEC DE");
            }
            Instruction { mnemonic: "DEC DE", time_increment: TimeIncrement { m: 2, t: 8 }, effect: Effect::DecrementPair(Pair::DE) }
        },
        0x1C => {
            proof {
                reveal_strlit("INC E");
            }
            Instruction { mnemonic: "INC E", time_increment: TimeIncrement { m: 1, t: 4 }, effect: Effect::Increment(Target::E) }
        },
        0x1D => {
            proof {
                reveal_strlit("DEC E");
            }
            Instruction { mnemonic: "DEC E", time_increment: TimeIncrement { m: 1, t: 4 }, effect: Effect::Decrement(Target::E) }
        },
        0x1E => {
            proof {
                reveal_strlit("LD E,d8");
            }
            Instruction { mnemonic: "LD E,d8", time_increment: TimeIncrement { m: 2, t: 8 }, effect: Effect::LoadImmediate(Target::E) }
        },
        0x1F => {
            proof {
                reveal_strlit("RRA");
            }
            Instruction { mnemonic: "RRA", time_increment: TimeIncrement { m: 1, t: 4 }, effect: Effect::RotateAccumulator(ShiftOp::Rr) }
        },
        0x20 => {
            proof {
                reveal_strlit("JR NZ,r8");
            }
            Instruction { mnemonic: "JR NZ,r8", time_increment: TimeIncrement { m: 2, t: 8 }, effect: Effect::JumpRelativeIf(Condition::NotZero) }
        },
        0x21 => {
            proof {
                reveal_strlit("LD HL,d16");
            }
            Instruction { mnemonic: "LD HL,d16", time_increment: TimeIncrement { m: 3, t: 12 }, effect: Effect::LoadPairImmediate(Pair::HL) }
        },
        0x22 => {
            proof {
                reveal_strlit("LD (HL+),A");
            }
            Instruction { mnemonic: "LD (HL+),A", time_increment: TimeIncrement { m: 2, t: 8 }, effect: Effect::StoreAccumulator(Pointer::HlIncrement) }
        },
        0x23 => {
            proof {
                reveal_strlit("INC HL");
            }
            Instruction { mnemonic: "INC HL", time_increment: TimeIncrement { m: 2, t: 8 }, effect: Effect::IncrementPair(Pair::HL) }
        },
        0x24 => {
            proof {
                reveal_strlit("INC H");
            }
            Instruction { mnemonic: "INC H", time_increment: TimeIncrement { m: 1, t: 4 }, effect: Effect::Increment(Target::H) }
        },
        0x25 => {
            proof {
                reveal_strlit("DEC H");
            }
            Instruction { mnemonic: "DEC H", time_increment: TimeIncrement { m: 1, t: 4 }, effect: Effect::Decrement(Target::H) }
        },
        0x26 => {
            proof {
                reveal_strlit("LD H,d8");
            }
            Instruction { mnemonic: "LD H,d8", time_increment: TimeIncrement { m: 2, t: 8 }, effect: Effect::LoadImmediate(Target::H) }
        },
        0x27 => {
            proof {
                reveal_strlit("DAA");
            }
            Instruction { mnemonic: "DAA", time_increment: TimeIncrement { m: 1, t: 4 }, effect: Effect::DecimalAdjust }
        },
        0x28 => {
            proof {
                reveal_strlit("JR Z,r8");
            }
            Instruction { mnemonic: "JR Z,r8", time_increment: TimeIncrement { m: 2, t: 8 }, effect: Effect::JumpRelativeIf(Condition::Zero) }
        },
        0x29 => {
            proof {
                reveal_strlit("ADD HL,HL");
            }
            Instruction { mnemonic: "ADD HL,HL", time_increment: TimeIncrement { m: 2, t: 8 }, effect: Effect::AddToHl(Pair::HL) }
        },
        0x2A => {
            proof {
                reveal_strlit("LD A,(HL+)");
            }
            Instruction { mnemonic: "LD A,(HL+)", time_increment: TimeIncrement { m: 2, t: 8 }, effect: Effect::LoadAccumulator(Pointer::HlIncrement) }
        },
        0x2B => {
            proof {
                reveal_strlit("DEC HL");
            }
            Instruction { mnemonic: "DEC HL", time_increment: TimeIncrement { m: 2, t: 8 }, effect: Effect::DecrementPair(Pair::HL) }
        },
        0x2C => {
            proof {
                reveal_strlit("INC L");
            }
            Instruction { mnemonic: "INC L", time_increment: TimeIncrement { m: 1, t: 4 }, effect: Effect::Increment(Target::L) }
        },
        0x2D => {
            proof {
                reveal_strlit("DEC L");
            }
            Instruction { mnemonic: "DEC L", time_increment: TimeIncrement { m: 1, t: 4 }, effect: Effect::Decrement(Target::L) }
        },
        0x2E => {
            proof {
                reveal_strlit("LD L,d8");
            }
            Instruction { mnemonic: "LD L,d8", time_increment: TimeIncrement { m: 2, t: 8 }, effect: Effect::LoadImmediate(Target::L) }
        },
        0x2F => {
            proof {
                reveal_strlit("CPL");
            }
            Instruction { mnemonic: "CPL", time_increment: TimeIncrement { m: 1, t: 4 }, effect: Effect::Complement }
        },
        0x30 => {
            proof {
                reveal_strlit("JR NC,r8");
            }
            Instruction { mnemonic: "JR NC,r8", time_increment: TimeIncrement { m: 2, t: 8 }, effect: Effect::JumpRelativeIf(Condition::NoCarry) }
        },
        0x31 => {
            proof {
                reveal_strlit("LD SP,d16");
            }
            Instruction { mnemonic: "LD SP,d16", time_increment: TimeIncrement { m: 3, t: 12 }, effect: Effect::LoadPairImmediate(Pair::SP) }
        },
        0x32 => {
            proof {
                reveal_strlit("LD (HL-),A");
            }
            Instruction { mnemonic: "LD (HL-),A", time_increment: TimeIncrement { m: 2, t: 8 }, effect: Effect::StoreAccumulator(Pointer::HlDecrement) }
        },
        0x33 => {
            proof {
                reveal_strlit("INC SP");
            }
            Instruction { mnemonic: "INC SP", time_increment: TimeIncrement { m: 2, t: 8 }, effect: Effect::IncrementPair(Pair::SP) }
        },
        0x34 => {
            proof {
                reveal_strlit("INC (HL)");
            }
            Instruction { mnemonic: "INC (HL)", time_increment: TimeIncrement { m: 3, t: 12 }, effect: Effect::Increment(Target::HlIndirect) }
        },
        0x35 => {
            proof {
                reveal_strlit("DEC (HL)");
            }
            Instruction { mnemonic: "DEC (HL)", time_increment: TimeIncrement { m: 3, t: 12 }, effect: Effect::Decrement(Target::HlIndirect) }
        },
        0x36 => {
            proof {
                reveal_strlit("LD (HL),d8");
            }
            Instruction { mnemonic: "LD (HL),d8", time_increment: TimeIncrement { m: 3, t: 12 }, effect: Effect::LoadImmediate(Target::HlIndirect) }
        },
        0x37 => {
            proof {
                reveal_strlit("SCF");
            }
            Instruction { mnemonic: "SCF", time_increment: TimeIncrement { m: 1, t: 4 }, effect: Effect::SetCarry }
        },
        0x38 => {
            proof {
                reveal_strlit("JR C,r8");
            }
            Instruction { mnemonic: "JR C,r8", time_increment: TimeIncrement { m: 2, t: 8 }, effect: Effect::JumpRelativeIf(Condition::Carry) }
        },
        0x39 => {
            proof {
                reveal_strlit("ADD HL,SP");
            }
            Instruction { mnemonic: "ADD HL,SP", time_increment: TimeIncrement { m: 2, t: 8 }, effect: Effect::AddToHl(Pair::SP) }
        },
        0x3A => {
            proof {
                reveal_strlit("LD A,(HL-)");
            }
            Instruction { mnemonic: "LD A,(HL-)", time_increment: TimeIncrement { m: 2, t: 8 }, effect: Effect::LoadAccumulator(Pointer::HlDecrement) }
        },
        0x3B => {
            proof {
                reveal_strlit("DEC SP");
            }
            Instruction { mnemonic: "DEC SP", time_increment: TimeIncrement { m: 2, t: 8 }, effect: Effect::DecrementPair(Pair::SP) }
        },
        0x3C => {
            proof {
                reveal_strlit("INC A");
            }
            Instruction { mnemonic: "INC A", time_increment: TimeIncrement { m: 1, t: 4 }, effect: Effect::Increment(Target::A) }
        },
        0x3D => {
            proof {
                reveal_strlit("DEC A");
            }
            Instruction { mnemonic: "DEC A", time_increment: TimeIncrement { m: 1, t: 4 }, effect: Effect::Decrement(Target::A) }
        },
        0x3E => {
            proof {
                reveal_strlit("LD A,d8");
            }
            Instruction { mnemonic: "LD A,d8", time_increment: TimeIncrement { m: 2, t: 8 }, effect: Effect::LoadImmediate(Target::A) }
        },
        0x3F => {
            proof {
                reveal_strlit("CCF");
            }
            Instruction { mnemonic: "CCF", time_increment: TimeIncrement { m: 1, t: 4 }, effect: Effect::ComplementCarry }
        },
        _ => Instruction::default(),
    }
}

/// Opcodes `0x40..=0x7F`: the loads between eight-bit operands, and `HALT`.
#[verifier::rlimit(40)]
fn primary_load_quarter(opcode: u8) -> (entry: Instruction)
    requires
        0x40 <= opcode,
        opcode < 0x80,
    ensures
        entry_declares(entry, decode_primary(opcode)),
{
    match opcode {
        0x40 => {
            proof {
                reveal_strlit("LD B,B");
            }
            Instruction { mnemonic: "LD B,B", time_increment: TimeIncrement { m: 1, t: 4 }, effect: Effect::Load(Target::B, Target::B) }
        },
        0x41 => {
            proof {
                reveal_strlit("LD B,C");
            }
            Instruction { mnemonic: "LD B,C", time_increment: TimeIncrement { m: 1, t: 4 }, effect: Effect::Load(Target::B, Target::C) }
        },
        0x42 => {
            proof {
                reveal_strlit("LD B,D");
            }
            Instruction { mnemonic: "LD B,D", time_increment: TimeIncrement { m: 1, t: 4 }, effect: Effect::Load(Target::B, Target::D) }
        },
        0x43 => {
            proof {
                reveal_strlit("LD B,E");
            }
            Instruction { mnemonic: "LD B,E", time_increment: TimeIncrement { m: 1, t: 4 }, effect: Effect::Load(Target::B, Target::E) }
        },
        0x44 => {
            proof {
                reveal_strlit("LD B,H");
            }
            Instruction { mnemonic: "LD B,H", time_increment: TimeIncrement { m: 1, t: 4 }, effect: Effect::Load(Target::B, Target::H) }
        },
        0x45 => {
            proof {
                reveal_strlit("LD B,L");
            }
            Instruction { mnemonic: "LD B,L", time_increment: TimeIncrement { m: 1, t: 4 }, effect: Effect::Load(Target::B, Target::L) }
        },
        0x46 => {
            proof {
                reveal_strlit("LD B,(HL)");
            }
            Instruction { mnemonic: "LD B,(HL)", time_increment: TimeIncrement { m: 2, t: 8 }, effect: Effect::Load(Target::B, Target::HlIndirect) }
        },
        0x47 => {
            proof {
                reveal_strlit("LD B,A");
            }
            Instruction { mnemonic: "LD B,A", time_increment: TimeIncrement { m: 1, t: 4 }, effect: Effect::Load(Target::B, Target::A) }
        },
        0x48 => {
            proof {
                reveal_strlit("LD C,B");
            }
            Instruction { mnemonic: "LD C,B", time_increment: TimeIncrement { m: 1, t: 4 }, effect: Effect::Load(Target::C, Target::B) }
        },
        0x49 => {
            proof {
                reveal_strlit("LD C,C");
            }
            Instruction { mnemonic: "LD C,C", time_increment: TimeIncrement { m: 1, t: 4 }, effect: Effect::Load(Target::C, Target::C) }
        },
        0x4A => {
            proof {
                reveal_strlit("LD C,D");
            }
            Instruction { mnemonic: "LD C,D", time_increment: TimeIncrement { m: 1, t: 4 }, effect: Effect::Load(Target::C, Target::D) }
        },
        0x4B => {
            proof {
                reveal_strlit("LD C,E");
            }
            Instruction { mnemonic: "LD C,E", time_increment: TimeIncrement { m: 1, t: 4 }, effect: Effect::Load(Target::C, Target::E) }
        },
        0x4C => {
            proof {
                reveal_strlit("LD C,H");
            }
            Instruction { mnemonic: "LD C,H", time_increment: TimeIncrement { m: 1, t: 4 }, effect: Effect::Load(Target::C, Target::H) }
        },
        0x4D => {
            proof {
                reveal_strlit("LD C,L");
            }
            Instruction { mnemonic: "LD C,L", time_increment: TimeIncrement { m: 1, t: 4 }, effect: Effect::Load(Target::C, Target::L) }
        },
        0x4E => {
            proof {
                reveal_strlit("LD C,(HL)");
            }
            Instruction { mnemonic: "LD C,(HL)", time_increment: TimeIncrement { m: 2, t: 8 }, effect: Effect::Load(Target::C, Target::HlIndirect) }
        },
        0x4F => {
            proof {
                reveal_strlit("LD C,A");
            }
            Instruction { mnemonic: "LD C,A", time_increment: TimeIncrement { m: 1, t: 4 }, effect: Effect::Load(Target::C, Target::A) }
        },
        0x50 => {
            proof {
                reveal_strlit("LD D,B");
            }
            Instruction { mnemonic: "LD D,B", time_increment: TimeIncrement { m: 1, t: 4 }, effect: Effect::Load(Target::D, Target::B) }
        },
        0x51 => {
            proof {
                reveal_strlit("LD D,C");
            }
            Instruction { mnemonic: "LD D,C", time_increment: TimeIncrement { m: 1, t: 4 }, effect: Effect::Load(Target::D, Target::C) }
        },
        0x52 => {
            proof {
                reveal_strlit("LD D,D");
            }
            Instruction { mnemonic: "LD D,D", time_increment: TimeIncrement { m: 1, t: 4 }, effect: Effect::Load(Target::D, Target::D) }
        },
        0x53 => {
            proof {
                reveal_strlit("LD D,E");
            }
            Instruction { mnemonic: "LD D,E", time_increment: TimeIncrement { m: 1, t: 4 }, effect: Effect::Load(Target::D, Target::E) }
        },
        0x54 => {
            proof {
                reveal_strlit("LD D,H");
            }
            Instruction { mnemonic: "LD D,H", time_increment: TimeIncrement { m: 1, t: 4 }, effect: Effect::Load(Target::D, Target::H) }
        },
        0x55 => {
            proof {
                reveal_strlit("LD D,L");
            }
            Instruction { mnemonic: "LD D,L", time_increment: TimeIncrement { m: 1, t: 4 }, effect: Effect::Load(Target::D, Target::L) }
        },
        0x56 => {
            proof {
                reveal_strlit("LD D,(HL)");
            }
            Instruction { mnemonic: "LD D,(HL)", time_increment: TimeIncrement { m: 2, t: 8 }, effect: Effect::Load(Target::D, Target::HlIndirect) }
        },
        0x57 => {
            proof {
                reveal_strlit("LD D,A");
            }
            Instruction { mnemonic: "LD D,A", time_increment: TimeIncrement { m: 1, t: 4 }, effect: Effect::Load(Target::D, Target::A) }
        },
        0x58 => {
            proof {
                reveal_strlit("LD E,B");
            }
            Instruction { mnemonic: "LD E,B", time_increment: TimeIncrement { m: 1, t: 4 }, effect: Effect::Load(Target::E, Target::B) }
        },
        0x59 => {
            proof {
                reveal_strlit("LD E,C");
            }
            Instruction { mnemonic: "LD E,C", time_increment: TimeIncrement { m: 1, t: 4 }, effect: Effect::Load(Target::E, Target::C) }
        },
        0x5A => {
            proof {
                reveal_strlit("LD E,D");
            }
            Instruction { mnemonic: "LD E,D", time_increment: TimeIncrement { m: 1, t: 4 }, effect: Effect::Load(Target::E, Target::D) }
        },
        0x5B => {
            proof {
                reveal_strlit("LD E,E");
            }
            Instruction { mnemonic: "LD E,E", time_increment: TimeIncrement { m: 1, t: 4 }, effect: Effect::Load(Target::E, Target::E) }
        },
        0x5C => {
            proof {
                reveal_strlit("LD E,H");
            }
            Instruction { mnemonic: "LD E,H", time_increment: TimeIncrement { m: 1, t: 4 }, effect: Effect::Load(Target::E, Target::H) }
        },
        0x5D => {
            proof {
                reveal_strlit("LD E,L");
            }
            Instruction { mnemonic: "LD E,L", time_increment: TimeIncrement { m: 1, t: 4 }, effect: Effect::Load(Target::E, Target::L) }
        },
        0x5E => {
            proof {
                reveal_strlit("LD E,(HL)");
            }
            Instruction { mnemonic: "LD E,(HL)", time_increment: TimeIncrement { m: 2, t: 8 }, effect: Effect::Load(Target::E, Target::HlIndirect) }
        },
        0x5F => {
            proof {
                reveal_strlit("LD E,A");
            }
            Instruction { mnemonic: "LD E,A", time_increment: TimeIncrement { m: 1, t: 4 }, effect: Effect::Load(Target::E, Target::A) }
        },
        0x60 => {
            proof {
                reveal_strlit("LD H,B");
            }
            Instruction { mnemonic: "LD H,B", time_increment: TimeIncrement { m: 1, t: 4 }, effect: Effect::Load(Target::H, Target::B) }
        },
        0x61 => {
            proof {
                reveal_strlit("LD H,C");
            }
            Instruction { mnemonic: "LD H,C", time_increment: TimeIncrement { m: 1, t: 4 }, effect: Effect::Load(Target::H, Target::C) }
        },
        0x62 => {
            proof {
                reveal_strlit("LD H,D");
            }
            Instruction { mnemonic: "LD H,D", time_increment: TimeIncrement { m: 1, t: 4 }, effect: Effect::Load(Target::H, Target::D) }
        },
        0x63 => {
            proof {
                reveal_strlit("LD H,E");
            }
            Instruction { mnemonic: "LD H,E", time_increment: TimeIncrement { m: 1, t: 4 }, effect: Effect::Load(Target::H, Target::E) }
        },
        0x64 => {
            proof {
                reveal_strlit("LD H,H");
            }
            Instruction { mnemonic: "LD H,H", time_increment: TimeIncrement { m: 1, t: 4 }, effect: Effect::Load(Target::H, Target::H) }
        },
        0x65 => {
            proof {
                reveal_strlit("LD H,L");
            }
            Instruction { mnemonic: "LD H,L", time_increment: TimeIncrement { m: 1, t: 4 }, effect: Effect::Load(Target::H, Target::L) }
        },
        0x66 => {
            proof {
                reveal_strlit("LD H,(HL)");
            }
            Instruction { mnemonic: "LD H,(HL)", time_increment: TimeIncrement { m: 2, t: 8 }, effect: Effect::Load(Target::H, Target::HlIndirect) }
        },
        0x67 => {
            proof {
                reveal_strlit("LD H,A");
            }
            Instruction { mnemonic: "LD H,A", time_increment: TimeIncrement { m: 1, t: 4 }, effect: Effect::Load(Target::H, Target::A) }
        },
        0x68 => {
            proof {
                reveal_strlit("LD L,B");
            }
            Instruction { mnemonic: "LD L,B", time_increment: TimeIncrement { m: 1, t: 4 }, effect: Effect::Load(Target::L, Target::B) }
        },
        0x69 => {
            proof {
                reveal_strlit("LD L,C");
            }
            Instruction { mnemonic: "LD L,C", time_increment: TimeIncrement { m: 1, t: 4 }, effect: Effect::Load(Target::L, Target::C) }
        },
        0x6A => {
            proof {
                reveal_strlit("LD L,D");
            }
            Instruction { mnemonic: "LD L,D", time_increment: TimeIncrement { m: 1, t: 4 }, effect: Effect::Load(Target::L, Target::D) }
        },
        0x6B => {
            proof {
                reveal_strlit("LD L,E");
            }
            Instruction { mnemonic: "LD L,E", time_increment: TimeIncrement { m: 1, t: 4 }, effect: Effect::Load(Target::L, Target::E) }
        },
        0x6C => {
            proof {
                reveal_strlit("LD L,H");
            }
            Instruction { mnemonic: "LD L,H", time_increment: TimeIncrement { m: 1, t: 4 }, effect: Effect::Load(Target::L, Target::H) }
        },
        0x6D => {
            proof {
                reveal_strlit("LD L,L");
            }
            Instruction { mnemonic: "LD L,L", time_increment: TimeIncrement { m: 1, t: 4 }, effect: Effect::Load(Target::L, Target::L) }
        },
        0x6E => {
            proof {
                reveal_strlit("LD L,(HL)");
            }
            Instruction { mnemonic: "LD L,(HL)", time_increment: TimeIncrement { m: 2, t: 8 }, effect: Effect::Load(Target::L, Target::HlIndirect) }
        },
        0x6F => {
            proof {
                reveal_strlit("LD L,A");
            }
            Instruction { mnemonic: "LD L,A", time_increment: TimeIncrement { m: 1, t: 4 }, effect: Effect::Load(Target::L, Target::A) }
        },
        0x70 => {
            proof {
                reveal_strlit("LD (HL),B");
            }
            Instruction { mnemonic: "LD (HL),B", time_increment: TimeIncrement { m: 2, t: 8 }, effect: Effect::Load(Target::HlIndirect, Target::B) }
        },
        0x71 => {
            proof {
                reveal_strlit("LD (HL),C");
            }
            Instruction { mnemonic: "LD (HL),C", time_increment: TimeIncrement { m: 2, t: 8 }, effect: Effect::Load(Target::HlIndirect, Target::C) }
        },
        0x72 => {
            proof {
                reveal_strlit("LD (HL),D");
            }
            Instruction { mnemonic: "LD (HL),D", time_increment: TimeIncrement { m: 2, t: 8 }, effect: Effect::Load(Target::HlIndirect, Target::D) }
        },
        0x73 => {
            proof {
                reveal_strlit("LD (HL),E");
            }
            Instruction { mnemonic: "LD (HL),E", time_increment: TimeIncrement { m: 2, t: 8 }, effect: Effect::Load(Target::HlIndirect, Target::E) }
        },
        0x74 => {
            proof {
                reveal_strlit("LD (HL),H");
            }
            Instruction { mnemonic: "LD (HL),H", time_increment: TimeIncrement { m: 2, t: 8 }, effect: Effect::Load(Target::HlIndirect, Target::H) }
        },
        0x75 => {
            proof {
                reveal_strlit("LD (HL),L");
            }
            Instruction { mnemonic: "LD (HL),L", time_increment: TimeIncrement { m: 2, t: 8 }, effect: Effect::Load(Target::HlIndirect, Target::L) }
        },
        0x76 => {
            proof {
                reveal_strlit("HALT");
            }
            Instruction { mnemonic: "HALT", time_increment: TimeIncrement { m: 0, t: 0 }, effect: Effect::Unimplemented }
        },
        0x77 => {
            proof {
                reveal_strlit("LD (HL),A");
            }
            Instruction { mnemonic: "LD (HL),A", time_increment: TimeIncrement { m: 2, t: 8 }, effect: Effect::Load(Target::HlIndirect, Target::A) }
        },
        0x78 => {
            proof {
                reveal_strlit("LD A,B");
            }
            Instruction { mnemonic: "LD A,B", time_increment: TimeIncrement { m: 1, t: 4 }, effect: Effect::Load(Target::A, Target::B) }
        },
        0x79 => {
            proof {
                reveal_strlit("LD A,C");
            }
            Instruction { mnemonic: "LD A,C", time_increment: TimeIncrement { m: 1, t: 4 }, effect: Effect::Load(Target::A, Target::C) }
        },
        0x7A => {
            proof {
                reveal_strlit("LD A,D");
            }
            Instruction { mnemonic: "LD A,D", time_increment: TimeIncrement { m: 1, t: 4 }, effect: Effect::Load(Target::A, Target::D) }
        },
        0x7B => {
            proof {
                reveal_strlit("LD A,E");
            }
            Instruction { mnemonic: "LD A,E", time_increment: TimeIncrement { m: 1, t: 4 }, effect: Effect::Load(Target::A, Target::E) }
        },
        0x7C => {
            proof {
                reveal_strlit("LD A,H");
            }
            Instruction { mnemonic: "LD A,H", time_increment: TimeIncrement { m: 1, t: 4 }, effect: Effect::Load(Target::A, Target::H) }
        },
        0x7D => {
            proof {
                reveal_strlit("LD A,L");
            }
            Instruction { mnemonic: "LD A,L", time_increment: TimeIncrement { m: 1, t: 4 }, effect: Effect::Load(Target::A, Target::L) }
        },
        0x7E => {
            proof {
                reveal_strlit("LD A,(HL)");
            }
            Instruction { mnemonic: "LD A,(HL)", time_increment: TimeIncrement { m: 2, t: 8 }, effect: Effect::Load(Target::A, Target::HlIndirect) }
        },
        0x7F => {
            proof {
                reveal_strlit("LD A,A");
            }
            Instruction { mnemonic: "LD A,A", time_increment: TimeIncrement { m: 1, t: 4 }, effect: Effect::Load(Target::A, Target::A) }
        },
        _ => Instruction::default(),
    }
}

/// Opcodes `0x80..=0xBF`: the accumulator with an eight-bit operand.
#[verifier::rlimit(40)]
fn primary_alu_quarter(opcode: u8) -> (entry: Instruction)
    requires
        0x80 <= opcode,
        opcode < 0xC0,
    ensures
        entry_declares(entry, decode_primary(opcode)),
{
    match opcode {
        0x80 => {
            proof {
                reveal_strlit("ADD A,B");
            }
            Instruction { mnemonic: "ADD A,B", time_increment: TimeIncrement { m: 1, t: 4 }, effect: Effect::Alu(AluOp::Add, Target::B) }
        },
        0x81 => {
            proof {
                reveal_strlit("ADD A,C");
            }
            Instruction { mnemonic: "ADD A,C", time_increment: TimeIncrement { m: 1, t: 4 }, effect: Effect::Alu(AluOp::Add, Target::C) }
        },
        0x82 => {
            proof {
                reveal_strlit("ADD A,D");
            }
            Instruction { mnemonic: "ADD A,D", time_increment: TimeIncrement { m: 1, t: 4 }, effect: Effect::Alu(AluOp::Add, Target::D) }
        },
        0x83 => {
            proof {
                reveal_strlit("ADD A,E");
            }
            Instruction { mnemonic: "ADD A,E", time_increment: TimeIncrement { m: 1, t: 4 }, effect: Effect::Alu(AluOp::Add, Target::E) }
        },
        0x84 => {
            proof {
                reveal_strlit("ADD A,H");
            }
            Instruction { mnemonic: "ADD A,H", time_increment: TimeIncrement { m: 1, t: 4 }, effect: Effect::Alu(AluOp::Add, Target::H) }
        },
        0x85 => {
            proof {
                reveal_strlit("ADD A,L");
            }
            Instruction { mnemonic: "ADD A,L", time_increment: TimeIncrement { m: 1, t: 4 }, effect: Effect::Alu(AluOp::Add, Target::L) }
        },
        0x86 => {
            proof {
                reveal_strlit("ADD A,(HL)");
            }
            Instruction { mnemonic: "ADD A,(HL)", time_increment: TimeIncrement { m: 2, t: 8 }, effect: Effect::Alu(AluOp::Add, Target::HlIndirect) }
        },
        0x87 => {
            proof {
                reveal_strlit("ADD A,A");
            }
            Instruction { mnemonic: "ADD A,A", time_increment: TimeIncrement { m: 1, t: 4 }, effect: Effect::Alu(AluOp::Add, Target::A) }
        },
        0x88 => {
            proof {
                reveal_strlit("ADC A,B");
            }
            Instruction { mnemonic: "ADC A,B", time_increment: TimeIncrement { m: 1, t: 4 }, effect: Effect::Alu(AluOp::Adc, Target::B) }
        },
        0x89 => {
            proof {
                reveal_strlit("ADC A,C");
            }
            Instruction { mnemonic: "ADC A,C", time_increment: TimeIncrement { m: 1, t: 4 }, effect: Effect::Alu(AluOp::Adc, Target::C) }
        },
        0x8A => {
            proof {
                reveal_strlit("ADC A,D");
            }
            Instruction { mnemonic: "ADC A,D", time_increment: TimeIncrement { m: 1, t: 4 }, effect: Effect::Alu(AluOp::Adc, Target::D) }
        },
        0x8B => {
            proof {
                reveal_strlit("ADC A,E");
            }
            Instruction { mnemonic: "ADC A,E", time_increment: TimeIncrement { m: 1, t: 4 }, effect: Effect::Alu(AluOp::Adc, Target::E) }
        },
        0x8C => {
            proof {
                reveal_strlit("ADC A,H");
            }
            Instruction { mnemonic: "ADC A,H", time_increment: TimeIncrement { m: 1, t: 4 }, effect: Effect::Alu(AluOp::Adc, Target::H) }
        },
        0x8D => {
            proof {
                reveal_strlit("ADC A,L");
            }
            Instruction { mnemonic: "ADC A,L", time_increment: TimeIncrement { m: 1, t: 4 }, effect: Effect::Alu(AluOp::Adc, Target::L) }
        },
        0x8E => {
            proof {
                reveal_strlit("ADC A,(HL)");
            }
            Instruction { mnemonic: "ADC A,(HL)", time_increment: TimeIncrement { m: 2, t: 8 }, effect: Effect::Alu(AluOp::Adc, Target::HlIndirect) }
        },
        0x8F => {
            proof {
                reveal_strlit("ADC A,A");
            }
            Instruction { mnemonic: "ADC A,A", time_increment: TimeIncrement { m: 1, t: 4 }, effect: Effect::Alu(AluOp::Adc, Target::A) }
        },
        0x90 => {
            proof {
                reveal_strlit("SUB B");
            }
            Instruction { mnemonic: "SUB B", time_increment: TimeIncrement { m: 1, t: 4 }, effect: Effect::Alu(AluOp::Sub, Target::B) }
        },
        0x91 => {
            proof {
                reveal_strlit("SUB C");
            }
            Instruction { mnemonic: "SUB C", time_increment: TimeIncrement { m: 1, t: 4 }, effect: Effect::Alu(AluOp::Sub, Target::C) }
        },
        0x92 => {
            proof {
                reveal_strlit("SUB D");
            }
            Instruction { mnemonic: "SUB D", time_increment: TimeIncrement { m: 1, t: 4 }, effect: Effect::Alu(AluOp::Sub, Target::D) }
        },
        0x93 => {
            proof {
                reveal_strlit("SUB E");
            }
            Instruction { mnemonic: "SUB E", time_increment: TimeIncrement { m: 1, t: 4 }, effect: Effect::Alu(AluOp::Sub, Target::E) }
        },
        0x94 => {
            proof {
                reveal_strlit("SUB H");
            }
            Instruction { mnemonic: "SUB H", time_increment: TimeIncrement { m: 1, t: 4 }, effect: Effect::Alu(AluOp::Sub, Target::H) }
        },
        0x95 => {
            proof {
                reveal_strlit("SUB L");
            }
            Instruction { mnemonic: "SUB L", time_increment: TimeIncrement { m: 1, t: 4 }, effect: Effect::Alu(AluOp::Sub, Target::L) }
        },
        0x96 => {
            proof {
                reveal_strlit("SUB (HL)");
            }
            Instruction { mnemonic: "SUB (HL)", time_increment: TimeIncrement { m: 2, t: 8 }, effect: Effect::Alu(AluOp::Sub, Target::HlIndirect) }
        },
        0x97 => {
            proof {
                reveal_strlit("SUB A");
            }
            Instruction { mnemonic: "SUB A", time_increment: TimeIncrement { m: 1, t: 4 }, effect: Effect::Alu(AluOp::Sub, Target::A) }
        },
        0x98 => {
            proof {
                reveal_strlit("SBC A,B");
            }
            Instruction { mnemonic: "SBC A,B", time_increment: TimeIncrement { m: 1, t: 4 }, effect: Effect::Alu(AluOp::Sbc, Target::B) }
        },
        0x99 => {
            proof {
                reveal_strlit("SBC A,C");
            }
            Instruction { mnemonic: "SBC A,C", time_increment: TimeIncrement { m: 1, t: 4 }, effect: Effect::Alu(AluOp::Sbc, Target::C) }
        },
        0x9A => {
            proof {
                reveal_strlit("SBC A,D");
            }
            Instruction { mnemonic: "SBC A,D", time_increment: TimeIncrement { m: 1, t: 4 }, effect: Effect::Alu(AluOp::Sbc, Target::D) }
        },
        0x9B => {
            proof {
                reveal_strlit("SBC A,E");
            }
            Instruction { mnemonic: "SBC A,E", time_increment: TimeIncrement { m: 1, t: 4 }, effect: Effect::Alu(AluOp::Sbc, Target::E) }
        },
        0x9C => {
            proof {
                reveal_strlit("SBC A,H");
            }
            Instruction { mnemonic: "SBC A,H", time_increment: TimeIncrement { m: 1, t: 4 }, effect: Effect::Alu(AluOp::Sbc, Target::H) }
        },
        0x9D => {
            proof {
                reveal_strlit("SBC A,L");
            }
            Instruction { mnemonic: "SBC A,L", time_increment: TimeIncrement { m: 1, t: 4 }, effect: Effect::Alu(AluOp::Sbc, Target::L) }
        },
        0x9E => {
            proof {
                reveal_strlit("SBC A,(HL)");
            }
            Instruction { mnemonic: "SBC A,(HL)", time_increment: TimeIncrement { m: 2, t: 8 }, effect: Effect::Alu(AluOp::Sbc, Target::HlIndirect) }
        },
        0x9F => {
            proof {
                reveal_strlit("SBC A,A");
            }
            Instruction { mnemonic: "SBC A,A", time_increment: TimeIncrement { m: 1, t: 4 }, effect: Effect::Alu(AluOp::Sbc, Target::A) }
        },
        0xA0 => {
            proof {
                reveal_strlit("AND B");
            }
            Instruction { mnemonic: "AND B", time_increment: TimeIncrement { m: 1, t: 4 }, effect: Effect::Alu(AluOp::And, Target::B) }
        },
        0xA1 => {
            proof {
                reveal_strlit("AND C");
            }
            Instruction { mnemonic: "AND C", time_increment: TimeIncrement { m: 1, t: 4 }, effect: Effect::Alu(AluOp::And, Target::C) }
        },
        0xA2 => {
            proof {
                reveal_strlit("AND D");
            }
            Instruction { mnemonic: "AND D", time_increment: TimeIncrement { m: 1, t: 4 }, effect: Effect::Alu(AluOp::And, Target::D) }
        },
        0xA3 => {
            proof {
                reveal_strlit("AND E");
            }
            Instruction { mnemonic: "AND E", time_increment: TimeIncrement { m: 1, t: 4 }, effect: Effect::Alu(AluOp::And, Target::E) }
        },
        0xA4 => {
            proof {
                reveal_strlit("AND H");
            }
            Instruction { mnemonic: "AND H", time_increment: TimeIncrement { m: 1, t: 4 }, effect: Effect::Alu(AluOp::And, Target::H) }
        },
        0xA5 => {
            proof {
                reveal_strlit("AND L");
            }
            Instruction { mnemonic: "AND L", time_increment: TimeIncrement { m: 1, t: 4 }, effect: Effect::Alu(AluOp::And, Target::L) }
        },
        0xA6 => {
            proof {
                reveal_strlit("AND (HL)");
            }
            Instruction { mnemonic: "AND (HL)", time_increment: TimeIncrement { m: 2, t: 8 }, effect: Effect::Alu(AluOp::And, Target::HlIndirect) }
        },
        0xA7 => {
            proof {
                reveal_strlit("AND A");
            }
            Instruction { mnemonic: "AND A", time_increment: TimeIncrement { m: 1, t: 4 }, effect: Effect::Alu(AluOp::And, Target::A) }
        },
        0xA8 => {
            proof {
                reveal_strlit("XOR B");
            }
            Instruction { mnemonic: "XOR B", time_increment: TimeIncrement { m: 1, t: 4 }, effect: Effect::Alu(AluOp::Xor, Target::B) }
        },
        0xA9 => {
            proof {
                reveal_strlit("XOR C");
            }
            Instruction { mnemonic: "XOR C", time_increment: TimeIncrement { m: 1, t: 4 }, effect: Effect::Alu(AluOp::Xor, Target::C) }
        },
        0xAA => {
            proof {
                reveal_strlit("XOR D");
            }
            Instruction { mnemonic: "XOR D", time_increment: TimeIncrement { m: 1, t: 4 }, effect: Effect::Alu(AluOp::Xor, Target::D) }
        },
        0xAB => {
            proof {
                reveal_strlit("XOR E");
            }
            Instruction { mnemonic: "XOR E", time_increment: TimeIncrement { m: 1, t: 4 }, effect: Effect::Alu(AluOp::Xor, Target::E) }
        },
        0xAC => {
            proof {
                reveal_strlit("XOR H");
            }
            Instruction { mnemonic: "XOR H", time_increment: TimeIncrement { m: 1, t: 4 }, effect: Effect::Alu(AluOp::Xor, Target::H) }
        },
        0xAD => {
            proof {
                reveal_strlit("XOR L");
            }
            Instruction { mnemonic: "XOR L", time_increment: TimeIncrement { m: 1, t: 4 }, effect: Effect::Alu(AluOp::Xor, Target::L) }
        },
        0xAE => {
            proof {
                reveal_strlit("XOR (HL)");
            }
            Instruction { mnemonic: "XOR (HL)", time_increment: TimeIncrement { m: 2, t: 8 }, effect: Effect::Alu(AluOp::Xor, Target::HlIndirect) }
        },
        0xAF => {
            proof {
                reveal_strlit("XOR A");
            }
            Instruction { mnemonic: "XOR A", time_increment: TimeIncrement { m: 1, t: 4 }, effect: Effect::Alu(AluOp::Xor, Target::A) }
        },
        0xB0 => {
            proof {
                reveal_strlit("OR B");
            }
            Instruction { mnemonic: "OR B", time_increment: TimeIncrement { m: 1, t: 4 }, effect: Effect::Alu(AluOp::Or, Target::B) }
        },
        0xB1 => {
            proof {
                reveal_strlit("OR C");
            }
            Instruction { mnemonic: "OR C", time_increment: TimeIncrement { m: 1, t: 4 }, effect: Effect::Alu(AluOp::Or, Target::C) }
        },
        0xB2 => {
            proof {
                reveal_strlit("OR D");
            }
            Instruction { mnemonic: "OR D", time_increment: TimeIncrement { m: 1, t: 4 }, effect: Effect::Alu(AluOp::Or, Target::D) }
        },
        0xB3 => {
            proof {
                reveal_strlit("OR E");
            }
            Instruction { mnemonic: "OR E", time_increment: TimeIncrement { m: 1, t: 4 }, effect: Effect::Alu(AluOp::Or, Target::E) }
        },
        0xB4 => {
            proof {
                reveal_strlit("OR H");
            }
            Instruction { mnemonic: "OR H", time_increment: TimeIncrement { m: 1, t: 4 }, effect: Effect::Alu(AluOp::Or, Target::H) }
        },
        0xB5 => {
            proof {
                reveal_strlit("OR L");
            }
            Instruction { mnemonic: "OR L", time_increment: TimeIncrement { m: 1, t: 4 }, effect: Effect::Alu(AluOp::Or, Target::L) }
        },
        0xB6 => {
            proof {
                reveal_strlit("OR (HL)");
            }
            Instruction { mnemonic: "OR (HL)", time_increment: TimeIncrement { m: 2, t: 8 }, effect: Effect::Alu(AluOp::Or, Target::HlIndirect) }
        },
        0xB7 => {
            proof {
                reveal_strlit("OR A");
            }
            Instruction { mnemonic: "OR A", time_increment: TimeIncrement { m: 1, t: 4 }, effect: Effect::Alu(AluOp::Or, Target::A) }
        },
        0xB8 => {
            proof {
                reveal_strlit("CP B");
            }
            Instruction { mnemonic: "CP B", time_increment: TimeIncrement { m: 1, t: 4 }, effect: Effect::Alu(AluOp::Cp, Target::B) }
        },
        0xB9 => {
            proof {
                reveal_strlit("CP C");
            }
            Instruction { mnemonic: "CP C", time_increment: TimeIncrement { m: 1, t: 4 }, effect: Effect::Alu(AluOp::Cp, Target::C) }
        },
        0xBA => {
            proof {
                reveal_strlit("CP D");
            }
            Instruction { mnemonic: "CP D", time_increment: TimeIncrement { m: 1, t: 4 }, effect: Effect::Alu(AluOp::Cp, Target::D) }
        },
        0xBB => {
            proof {
                reveal_strlit("CP E");
            }
            Instruction { mnemonic: "CP E", time_increment: TimeIncrement { m: 1, t: 4 }, effect: Effect::Alu(AluOp::Cp, Target::E) }
        },
        0xBC => {
            proof {
                reveal_strlit("CP H");
            }
            Instruction { mnemonic: "CP H", time_increment: TimeIncrement { m: 1, t: 4 }, effect: Effect::Alu(AluOp::Cp, Target::H) }
        },
        0xBD => {
            proof {
                reveal_strlit("CP L");
            }
            Instruction { mnemonic: "CP L", time_increment: TimeIncrement { m: 1, t: 4 }, effect: Effect::Alu(AluOp::Cp, Target::L) }
        },
        0xBE => {
            proof {
                reveal_strlit("CP (HL)");
            }
            Instruction { mnemonic: "CP (HL)", time_increment: TimeIncrement { m: 2, t: 8 }, effect: Effect::Alu(AluOp::Cp, Target::HlIndirect) }
        },
        0xBF => {
            proof {
                reveal_strlit("CP A");
            }
            Instruction { mnemonic: "CP A", time_increment: TimeIncrement { m: 1, t: 4 }, effect: Effect::Alu(AluOp::Cp, Target::A) }
        },
        _ => Instruction::default(),
    }
}

/// Opcodes `0xC0..=0xFF`: returns, jumps, calls, the stack, the accumulator with an
/// immediate byte, and the loads of the last page.
#[verifier::rlimit(40)]
fn primary_high_quarter(opcode: u8) -> (entry: Instruction)
    requires
        0xC0 <= opcode,
    ensures
        entry_declares(entry, decode_primary(opcode)),
{
    match opcode {
        0xC0 => {
            proof {
                reveal_strlit("RET NZ");
            }
            Instruction { mnemonic: "RET NZ", time_increment: TimeIncrement { m: 2, t: 8 }, effect: Effect::ReturnIf(Condition::NotZero) }
        },
        0xC1 => {
            proof {
                reveal_strlit("POP BC");
            }
            Instruction { mnemonic: "POP BC", time_increment: TimeIncrement { m: 3, t: 12 }, effect: Effect::Pop(StackPair::BC) }
        },
        0xC2 => {
            proof {
                reveal_strlit("JP NZ,a16");
            }
            Instruction { mnemonic: "JP NZ,a16", time_increment: TimeIncrement { m: 3, t: 12 }, effect: Effect::JumpIf(Condition::NotZero) }
        },
        0xC3 => {
            proof {
                reveal_strlit("JP a16");
            }
            Instruction { mnemonic: "JP a16", time_increment: TimeIncrement { m: 4, t: 16 }, effect: Effect::Jump }
        },
        0xC4 => {
            proof {
                reveal_strlit("CALL NZ,a16");
            }
            Instruction { mnemonic: "CALL NZ,a16", time_increment: TimeIncrement { m: 3, t: 12 }, effect: Effect::CallIf(Condition::NotZero) }
        },
        0xC5 => {
            proof {
                reveal_strlit("PUSH BC");
            }
            Instruction { mnemonic: "PUSH BC", time_increment: TimeIncrement { m: 4, t: 16 }, effect: Effect::Push(StackPair::BC) }
        },
        0xC6 => {
            proof {
                reveal_strlit("ADD A,d8");
            }
            Instruction { mnemonic: "ADD A,d8", time_increment: TimeIncrement { m: 2, t: 8 }, effect: Effect::AluImmediate(AluOp::Add) }
        },
        0xC7 => {
            proof {
                reveal_strlit("RST 00H");
            }
            Instruction { mnemonic: "RST 00H", time_increment: TimeIncrement { m: 4, t: 16 }, effect: Effect::Restart(0x00) }
        },
        0xC8 => {
            proof {
                reveal_strlit("RET Z");
            }
            Instruction { mnemonic: "RET Z", time_increment: TimeIncrement { m: 2, t: 8 }, effect: Effect::ReturnIf(Condition::Zero) }
        },
        0xC9 => {
            proof {
                reveal_strlit("RET");
            }
            Instruction { mnemonic: "RET", time_increment: TimeIncrement { m: 4, t: 16 }, effect: Effect::Return }
        },
        0xCA => {
            proof {
                reveal_strlit("JP Z,a16");
            }
            Instruction { mnemonic: "JP Z,a16", time_increment: TimeIncrement { m: 3, t: 12 }, effect: Effect::JumpIf(Condition::Zero) }
        },
        0xCB => {
            proof {
                reveal_strlit("PREFIX CB");
            }
            Instruction { mnemonic: "PREFIX CB", time_increment: TimeIncrement { m: 1, t: 4 }, effect: Effect::Prefix }
        },
        0xCC => {
            proof {
                reveal_strlit("CALL Z,a16");
            }
            Instruction { mnemonic: "CALL Z,a16", time_increment: TimeIncrement { m: 3, t: 12 }, effect: Effect::CallIf(Condition::Zero) }
        },
        0xCD => {
            proof {
                reveal_strlit("CALL a16");
            }
            Instruction { mnemonic: "CALL a16", time_increment: TimeIncrement { m: 6, t: 24 }, effect: Effect::Call }
        },
        0xCE => {
            proof {
                reveal_strlit("ADC A,d8");
            }
            Instruction { mnemonic: "ADC A,d8", time_increment: TimeIncrement { m: 2, t: 8 }, effect: Effect::AluImmediate(AluOp::Adc) }
        },
        0xCF => {
            proof {
                reveal_strlit("RST 08H");
            }
            Instruction { mnemonic: "RST 08H", time_increment: TimeIncrement { m: 4, t: 16 }, effect: Effect::Restart(0x08) }
        },
        0xD0 => {
            proof {
                reveal_strlit("RET NC");
            }
            Instruction { mnemonic: "RET NC", time_increment: TimeIncrement { m: 2, t: 8 }, effect: Effect::ReturnIf(Condition::NoCarry) }
        },
        0xD1 => {
            proof {
                reveal_strlit("POP DE");
            }
            Instruction { mnemonic: "POP DE", time_increment: TimeIncrement { m: 3, t: 12 }, effect: Effect::Pop(StackPair::DE) }
        },
        0xD2 => {
            proof {
                reveal_strlit("JP NC,a16");
            }
            Instruction { mnemonic: "JP NC,a16", time_increment: TimeIncrement { m: 3, t: 12 }, effect: Effect::JumpIf(Condition::NoCarry) }
        },
        0xD3 => {
            proof {
                reveal_strlit("Unimplemented");
            }
            Instruction { mnemonic: "Unimplemented", time_increment: TimeIncrement { m: 0, t: 0 }, effect: Effect::Unimplemented }
        },
        0xD4 => {
            proof {
                reveal_strlit("CALL NC,a16");
            }
            Instruction { mnemonic: "CALL NC,a16", time_increment: TimeIncrement { m: 3, t: 12 }, effect: Effect::CallIf(Condition::NoCarry) }
        },
        0xD5 => {
            proof {
                reveal_strlit("PUSH DE");
            }
            Instruction { mnemonic: "PUSH DE", time_increment: TimeIncrement { m: 4, t: 16 }, effect: Effect::Push(StackPair::DE) }
        },
        0xD6 => {
            proof {
                reveal_strlit("SUB d8");
            }
            Instruction { mnemonic: "SUB d8", time_increment: TimeIncrement { m: 2, t: 8 }, effect: Effect::AluImmediate(AluOp::Sub) }
        },
        0xD7 => {
            proof {
                reveal_strlit("RST 10H");
            }
            Instruction { mnemonic: "RST 10H", time_increment: TimeIncrement { m: 4, t: 16 }, effect: Effect::Restart(0x10) }
        },
        0xD8 => {
            proof {
                reveal_strlit("RET C");
            }
            Instruction { mnemonic: "RET C", time_increment: TimeIncrement { m: 2, t: 8 }, effect: Effect::ReturnIf(Condition::Carry) }
        },
        0xD9 => {
            proof {
                reveal_strlit("RETI");
            }
            Instruction { mnemonic: "RETI", time_increment: TimeIncrement { m: 0, t: 0 }, effect: Effect::Unimplemented }
        },
        0xDA => {
            proof {
                reveal_strlit("JP C,a16");
            }
            Instruction { mnemonic: "JP C,a16", time_increment: TimeIncrement { m: 3, t: 12 }, effect: Effect::JumpIf(Condition::Carry) }
        },
        0xDB => {
            proof {
                reveal_strlit("Unimplemented");
            }
            Instruction { mnemonic: "Unimplemented", time_increment: TimeIncrement { m: 0, t: 0 }, effect: Effect::Unimplemented }
        },
        0xDC => {
            proof {
                reveal_strlit("CALL C,a16");
            }
            Instruction { mnemonic: "CALL C,a16", time_increment: TimeIncrement { m: 3, t: 12 }, effect: Effect::CallIf(Condition::Carry) }
        },
        0xDD => {
            proof {
                reveal_strlit("Unimplemented");
            }
            Instruction { mnemonic: "Unimplemented", time_increment: TimeIncrement { m: 0, t: 0 }, effect: Effect::Unimplemented }
        },
        0xDE => {
            proof {
                reveal_strlit("SBC A,d8");
            }
            Instruction { mnemonic: "SBC A,d8", time_increment: TimeIncrement { m: 2, t: 8 }, effect: Effect::AluImmediate(AluOp::Sbc) }
        },
        0xDF => {
            proof {
                reveal_strlit("RST 18H");
            }
            Instruction { mnemonic: "RST 18H", time_increment: TimeIncrement { m: 4, t: 16 }, effect: Effect::Restart(0x18) }
        },
        0xE0 => {
            proof {
                reveal_strlit("LDH (a8),A");
            }
            Instruction { mnemonic: "LDH (a8),A", time_increment: TimeIncrement { m: 3, t: 12 }, effect: Effect::StoreHighImmediate }
        },
        0xE1 => {
            proof {
                reveal_strlit("POP HL");
            }
            Instruction { mnemonic: "POP HL", time_increment: TimeIncrement { m: 3, t: 12 }, effect: Effect::Pop(StackPair::HL) }
        },
        0xE2 => {
            proof {
                reveal_strlit("LD (C),A");
            }
            Instruction { mnemonic: "LD (C),A", time_increment: TimeIncrement { m: 2, t: 8 }, effect: Effect::StoreHighC }
        },
        0xE3 => {
            proof {
                reveal_strlit("Unimplemented");
            }
            Instruction { mnemonic: "Unimplemented", time_increment: TimeIncrement { m: 0, t: 0 }, effect: Effect::Unimplemented }
        },
        0xE4 => {
            proof {
                reveal_strlit("Unimplemented");
            }
            Instruction { mnemonic: "Unimplemented", time_increment: TimeIncrement { m: 0, t: 0 }, effect: Effect::Unimplemented }
        },
        0xE5 => {
            proof {
                reveal_strlit("PUSH HL");
            }
            Instruction { mnemonic: "PUSH HL", time_increment: TimeIncrement { m: 4, t: 16 }, effect: Effect::Push(StackPair::HL) }
        },
        0xE6 => {
            proof {
                reveal_strlit("AND d8");
            }
            Instruction { mnemonic: "AND d8", time_increment: TimeIncrement { m: 2, t: 8 }, effect: Effect::AluImmediate(AluOp::And) }
        },
        0xE7 => {
            proof {
                reveal_strlit("RST 20H");
            }
            Instruction { mnemonic: "RST 20H", time_increment: TimeIncrement { m: 4, t: 16 }, effect: Effect::Restart(0x20) }
        },
        0xE8 => {
            proof {
                reveal_strlit("ADD SP,r8");
            }
            Instruction { mnemonic: "ADD SP,r8", time_increment: TimeIncrement { m: 4, t: 16 }, effect: Effect::AddToStackPointer }
        },
        0xE9 => {
            proof {
                reveal_strlit("JP (HL)");
            }
            Instruction { mnemonic: "JP (HL)", time_increment: TimeIncrement { m: 1, t: 4 }, effect: Effect::JumpToHl }
        },
        0xEA => {
            proof {
                reveal_strlit("LD (a16),A");
            }
            Instruction { mnemonic: "LD (a16),A", time_increment: TimeIncrement { m: 4, t: 16 }, effect: Effect::StoreAbsolute }
        },
        0xEB => {
            proof {
                reveal_strlit("Unimplemented");
            }
            Instruction { mnemonic: "Unimplemented", time_increment: TimeIncrement { m: 0, t: 0 }, effect: Effect::Unimplemented }
        },
        0xEC => {
            proof {
                reveal_strlit("Unimplemented");
            }
            Instruction { mnemonic: "Unimplemented", time_increment: TimeIncrement { m: 0, t: 0 }, effect: Effect::Unimplemented }
        },
        0xED => {
            proof {
                reveal_strlit("Unimplemented");
            }
            Instruction { mnemonic: "Unimplemented", time_increment: TimeIncrement { m: 0, t: 0 }, effect: Effect::Unimplemented }
        },
        0xEE => {
            proof {
                reveal_strlit("XOR d8");
            }
            Instruction { mnemonic: "XOR d8", time_increment: TimeIncrement { m: 2, t: 8 }, effect: Effect::AluImmediate(AluOp::Xor) }
        },
        0xEF => {
            proof {
                reveal_strlit("RST 28H");
            }
            Instruction { mnemonic: "RST 28H", time_increment: TimeIncrement { m: 4, t: 16 }, effect: Effect::Restart(0x28) }
        },
        0xF0 => {
            proof {
                reveal_strlit("LDH A,(a8)");
            }
            Instruction { mnemonic: "LDH A,(a8)", time_increment: TimeIncrement { m: 3, t: 12 }, effect: Effect::LoadHighImmediate }
        },
        0xF1 => {
            proof {
                reveal_strlit("POP AF");
            }
            Instruction { mnemonic: "POP AF", time_increment: TimeIncrement { m: 3, t: 12 }, effect: Effect::Pop(StackPair::AF) }
        },
        0xF2 => {
            proof {
                reveal_strlit("LD A,(C)");
            }
            Instruction { mnemonic: "LD A,(C)", time_increment: TimeIncrement { m: 2, t: 8 }, effect: Effect::LoadHighC }
        },
        0xF3 => {
            proof {
                reveal_strlit("DI");
            }
            Instruction { mnemonic: "DI", time_increment: TimeIncrement { m: 0, t: 0 }, effect: Effect::Unimplemented }
        },
        0xF4 => {
            proof {
                reveal_strlit("Unimplemented");
            }
            Instruction { mnemonic: "Unimplemented", time_increment: TimeIncrement { m: 0, t: 0 }, effect: Effect::Unimplemented }
        },
        0xF5 => {
            proof {
                reveal_strlit("PUSH AF");
            }
            Instruction { mnemonic: "PUSH AF", time_increment: TimeIncrement { m: 4, t: 16 }, effect: Effect::Push(StackPair::AF) }
        },
        0xF6 => {
            proof {
                reveal_strlit("OR d8");
            }
            Instruction { mnemonic: "OR d8", time_increment: TimeIncrement { m: 2, t: 8 }, effect: Effect::AluImmediate(AluOp::Or) }
        },
        0xF7 => {
            proof {
                reveal_strlit("RST 30H");
            }
            Instruction { mnemonic: "RST 30H", time_increment: TimeIncrement { m: 4, t: 16 }, effect: Effect::Restart(0x30) }
        },
        0xF8 => {
            proof {
                reveal_strlit("LD HL,SP+r8");
            }
            Instruction { mnemonic: "LD HL,SP+r8", time_increment: TimeIncrement { m: 3, t: 12 }, effect: Effect::LoadHlFromStackOffset }
        },
        0xF9 => {
            proof {
                reveal_strlit("LD SP,HL");
            }
            Instruction { mnemonic: "LD SP,HL", time_increment: TimeIncrement { m: 2, t: 8 }, effect: Effect::LoadStackPointerFromHl }
        },
        0xFA => {
            proof {
                reveal_strlit("LD A,(a16)");
            }
            Instruction { mnemonic: "LD A,(a16)", time_increment: TimeIncrement { m: 4, t: 16 }, effect: Effect::LoadAbsolute }
        },
        0xFB => {
            proof {
                reveal_strlit("EI");
            }
            Instruction { mnemonic: "EI", time_increment: TimeIncrement { m: 0, t: 0 }, effect: Effect::Unimplemented }
        },
        0xFC => {
            proof {
                reveal_strlit("Unimplemented");
            }
            Instruction { mnemonic: "Unimplemented", time_increment: TimeIncrement { m: 0, t: 0 }, effect: Effect::Unimplemented }
        },
        0xFD => {
            proof {
                reveal_strlit("Unimplemented");
            }
            Instruction { mnemonic: "Unimplemented", time_increment: TimeIncrement { m: 0, t: 0 }, effect: Effect::Unimplemented }
        },
        0xFE => {
            proof {
                reveal_strlit("CP d8");
            }
            Instruction { mnemonic: "CP d8", time_increment: TimeIncrement { m: 2, t: 8 }, effect: Effect::AluImmediate(AluOp::Cp) }
        },
        0xFF => {
            proof {
                reveal_strlit("RST 38H");
            }
            Instruction { mnemonic: "RST 38H", time_increment: TimeIncrement { m: 4, t: 16 }, effect: Effect::Restart(0x38) }
        },
        _ => Instruction::default(),
    }
}

/// Secondary opcodes `0x00..=0x3F`: rotations and shifts.
#[verifier::rlimit(40)]
fn extended_shift_quarter(opcode: u8) -> (entry: Instruction)
    requires
        opcode < 0x40,
    ensures
        entry_declares(entry, decode_extended(opcode)),
{
    match opcode {
        0x00 => {
            proof {
                reveal_strlit("RLC B");
            }
            Instruction { mnemonic: "RLC B", time_increment: TimeIncrement { m: 1, t: 4 }, effect: Effect::Shift(ShiftOp::Rlc, Target::B) }
        },
        0x01 => {
            proof {
                reveal_strlit("RLC C");
            }
            Instruction { mnemonic: "RLC C", time_increment: TimeIncrement { m: 1, t: 4 }, effect: Effect::Shift(ShiftOp::Rlc, Target::C) }
        },
        0x02 => {
            proof {
                reveal_strlit("RLC D");
            }
            Instruction { mnemonic: "RLC D", time_increment: TimeIncrement { m: 1, t: 4 }, effect: Effect::Shift(ShiftOp::Rlc, Target::D) }
        },
        0x03 => {
            proof {
                reveal_strlit("RLC E");
            }
            Instruction { mnemonic: "RLC E", time_increment: TimeIncrement { m: 1, t: 4 }, effect: Effect::Shift(ShiftOp::Rlc, Target::E) }
        },
        0x04 => {
            proof {
                reveal_strlit("RLC H");
            }
            Instruction { mnemonic: "RLC H", time_increment: TimeIncrement { m: 1, t: 4 }, effect: Effect::Shift(ShiftOp::Rlc, Target::H) }
        },
        0x05 => {
            proof {
                reveal_strlit("RLC L");
            }
            Instruction { mnemonic: "RLC L", time_increment: TimeIncrement { m: 1, t: 4 }, effect: Effect::Shift(ShiftOp::Rlc, Target::L) }
        },
        0x06 => {
            proof {
                reveal_strlit("RLC (HL)");
            }
            Instruction { mnemonic: "RLC (HL)", time_increment: TimeIncrement { m: 3, t: 12 }, effect: Effect::Shift(ShiftOp::Rlc, Target::HlIndirect) }
        },
        0x07 => {
            proof {
                reveal_strlit("RLC A");
            }
            Instruction { mnemonic: "RLC A", time_increment: TimeIncrement { m: 1, t: 4 }, effect: Effect::Shift(ShiftOp::Rlc, Target::A) }
        },
        0x08 => {
            proof {
                reveal_strlit("RRC B");
            }
            Instruction { mnemonic: "RRC B", time_increment: TimeIncrement { m: 1, t: 4 }, effect: Effect::Shift(ShiftOp::Rrc, Target::B) }
        },
        0x09 => {
            proof {
                reveal_strlit("RRC C");
            }
            Instruction { mnemonic: "RRC C", time_increment: TimeIncrement { m: 1, t: 4 }, effect: Effect::Shift(ShiftOp::Rrc, Target::C) }
        },
        0x0A => {
            proof {
                reveal_strlit("RRC D");
            }
            Instruction { mnemonic: "RRC D", time_increment: TimeIncrement { m: 1, t: 4 }, effect: Effect::Shift(ShiftOp::Rrc, Target::D) }
        },
        0x0B => {
            proof {
                reveal_strlit("RRC E");
            }
            Instruction { mnemonic: "RRC E", time_increment: TimeIncrement { m: 1, t: 4 }, effect: Effect::Shift(ShiftOp::Rrc, Target::E) }
        },
        0x0C => {
            proof {
                reveal_strlit("RRC H");
            }
            Instruction { mnemonic: "RRC H", time_increment: TimeIncrement { m: 1, t: 4 }, effect: Effect::Shift(ShiftOp::Rrc, Target::H) }
        },
        0x0D => {
            proof {
                reveal_strlit("RRC L");
            }
            Instruction { mnemonic: "RRC L", time_increment: TimeIncrement { m: 1, t: 4 }, effect: Effect::Shift(ShiftOp::Rrc, Target::L) }
        },
        0x0E => {
            proof {
                reveal_strlit("RRC (HL)");
            }
            Instruction { mnemonic: "RRC (HL)", time_increment: TimeIncrement { m: 3, t: 12 }, effect: Effect::Shift(ShiftOp::Rrc, Target::HlIndirect) }
        },
        0x0F => {
            proof {
                reveal_strlit("RRC A");
            }
            Instruction { mnemonic: "RRC A", time_increment: TimeIncrement { m: 1, t: 4 }, effect: Effect::Shift(ShiftOp::Rrc, Target::A) }
        },
        0x10 => {
            proof {
                reveal_strlit("RL B");
            }
            Instruction { mnemonic: "RL B", time_increment: TimeIncrement { m: 1, t: 4 }, effect: Effect::Shift(ShiftOp::Rl, Target::B) }
        },
        0x11 => {
            proof {
                reveal_strlit("RL C");
            }
            Instruction { mnemonic: "RL C", time_increment: TimeIncrement { m: 1, t: 4 }, effect: Effect::Shift(ShiftOp::Rl, Target::C) }
        },
        0x12 => {
            proof {
                reveal_strlit("RL D");
            }
            Instruction { mnemonic: "RL D", time_increment: TimeIncrement { m: 1, t: 4 }, effect: Effect::Shift(ShiftOp::Rl, Target::D) }
        },
        0x13 => {
            proof {
                reveal_strlit("RL E");
            }
            Instruction { mnemonic: "RL E", time_increment: TimeIncrement { m: 1, t: 4 }, effect: Effect::Shift(ShiftOp::Rl, Target::E) }
        },
        0x14 => {
            proof {
                reveal_strlit("RL H");
            }
            Instruction { mnemonic: "RL H", time_increment: TimeIncrement { m: 1, t: 4 }, effect: Effect::Shift(ShiftOp::Rl, Target::H) }
        },
        0x15 => {
            proof {
                reveal_strlit("RL L");
            }
            Instruction { mnemonic: "RL L", time_increment: TimeIncrement { m: 1, t: 4 }, effect: Effect::Shift(ShiftOp::Rl, Target::L) }
        },
        0x16 => {
            proof {
                reveal_strlit("RL (HL)");
            }
            Instruction { mnemonic: "RL (HL)", time_increment: TimeIncrement { m: 3, t: 12 }, effect: Effect::Shift(ShiftOp::Rl, Target::HlIndirect) }
        },
        0x17 => {
            proof {
                reveal_strlit("RL A");
            }
            Instruction { mnemonic: "RL A", time_increment: TimeIncrement { m: 1, t: 4 }, effect: Effect::Shift(ShiftOp::Rl, Target::A) }
        },
        0x18 => {
            proof {
                reveal_strlit("RR B");
            }
            Instruction { mnemonic: "RR B", time_increment: TimeIncrement { m: 1, t: 4 }, effect: Effect::Shift(ShiftOp::Rr, Target::B) }
        },
        0x19 => {
            proof {
                reveal_strlit("RR C");
            }
            Instruction { mnemonic: "RR C", time_increment: TimeIncrement { m: 1, t: 4 }, effect: Effect::Shift(ShiftOp::Rr, Target::C) }
        },
        0x1A => {
            proof {
                reveal_strlit("RR D");
            }
            Instruction { mnemonic: "RR D", time_increment: TimeIncrement { m: 1, t: 4 }, effect: Effect::Shift(ShiftOp::Rr, Target::D) }
        },
        0x1B => {
            proof {
                reveal_strlit("RR E");
            }
            Instruction { mnemonic: "RR E", time_increment: TimeIncrement { m: 1, t: 4 }, effect: Effect::Shift(ShiftOp::Rr, Target::E) }
        },
        0x1C => {
            proof {
                reveal_strlit("RR H");
            }
            Instruction { mnemonic: "RR H", time_increment: TimeIncrement { m: 1, t: 4 }, effect: Effect::Shift(ShiftOp::Rr, Target::H) }
        },
        0x1D => {
            proof {
                reveal_strlit("RR L");
            }
            Instruction { mnemonic: "RR L", time_increment: TimeIncrement { m: 1, t: 4 }, effect: Effect::Shift(ShiftOp::Rr, Target::L) }
        },
        0x1E => {
            proof {
                reveal_strlit("RR (HL)");
            }
            Instruction { mnemonic: "RR (HL)", time_increment: TimeIncrement { m: 3, t: 12 }, effect: Effect::Shift(ShiftOp::Rr, Target::HlIndirect) }
        },
        0x1F => {
            proof {
                reveal_strlit("RR A");
            }
            Instruction { mnemonic: "RR A", time_increment: TimeIncrement { m: 1, t: 4 }, effect: Effect::Shift(ShiftOp::Rr, Target::A) }
        },
        0x20 => {
            proof {
                reveal_strlit("SLA B");
            }
            Instruction { mnemonic: "SLA B", time_increment: TimeIncrement { m: 1, t: 4 }, effect: Effect::Shift(ShiftOp::Sla, Target::B) }
        },
        0x21 => {
            proof {
                reveal_strlit("SLA C");
            }
            Instruction { mnemonic: "SLA C", time_increment: TimeIncrement { m: 1, t: 4 }, effect: Effect::Shift(ShiftOp::Sla, Target::C) }
        },
        0x22 => {
            proof {
                reveal_strlit("SLA D");
            }
            Instruction { mnemonic: "SLA D", time_increment: TimeIncrement { m: 1, t: 4 }, effect: Effect::Shift(ShiftOp::Sla, Target::D) }
        },
        0x23 => {
            proof {
                reveal_strlit("SLA E");
            }
            Instruction { mnemonic: "SLA E", time_increment: TimeIncrement { m: 1, t: 4 }, effect: Effect::Shift(ShiftOp::Sla, Target::E) }
        },
        0x24 => {
            proof {
                reveal_strlit("SLA H");
            }
            Instruction { mnemonic: "SLA H", time_increment: TimeIncrement { m: 1, t: 4 }, effect: Effect::Shift(ShiftOp::Sla, Target::H) }
        },
        0x25 => {
            proof {
                reveal_strlit("SLA L");
            }
            Instruction { mnemonic: "SLA L", time_increment: TimeIncrement { m: 1, t: 4 }, effect: Effect::Shift(ShiftOp::Sla, Target::L) }
        },
        0x26 => {
            proof {
                reveal_strlit("SLA (HL)");
            }
            Instruction { mnemonic: "SLA (HL)", time_increment: TimeIncrement { m: 3, t: 12 }, effect: Effect::Shift(ShiftOp::Sla, Target::HlIndirect) }
        },
        0x27 => {
            proof {
                reveal_strlit("SLA A");
            }
            Instruction { mnemonic: "SLA A", time_increment: TimeIncrement { m: 1, t: 4 }, effect: Effect::Shift(ShiftOp::Sla, Target::A) }
        },
        0x28 => {
            proof {
                reveal_strlit("SRA B");
            }
            Instruction { mnemonic: "SRA B", time_increment: TimeIncrement { m: 1, t: 4 }, effect: Effect::Shift(ShiftOp::Sra, Target::B) }
        },
        0x29 => {
            proof {
                reveal_strlit("SRA C");
            }
            Instruction { mnemonic: "SRA C", time_increment: TimeIncrement { m: 1, t: 4 }, effect: Effect::Shift(ShiftOp::Sra, Target::C) }
        },
        0x2A => {
            proof {
                reveal_strlit("SRA D");
            }
            Instruction { mnemonic: "SRA D", time_increment: TimeIncrement { m: 1, t: 4 }, effect: Effect::Shift(ShiftOp::Sra, Target::D) }
        },
        0x2B => {
            proof {
                reveal_strlit("SRA E");
            }
            Instruction { mnemonic: "SRA E", time_increment: TimeIncrement { m: 1, t: 4 }, effect: Effect::Shift(ShiftOp::Sra, Target::E) }
        },
        0x2C => {
            proof {
                reveal_strlit("SRA H");
            }
            Instruction { mnemonic: "SRA H", time_increment: TimeIncrement { m: 1, t: 4 }, effect: Effect::Shift(ShiftOp::Sra, Target::H) }
        },
        0x2D => {
            proof {
                reveal_strlit("SRA L");
            }
            Instruction { mnemonic: "SRA L", time_increment: TimeIncrement { m: 1, t: 4 }, effect: Effect::Shift(ShiftOp::Sra, Target::L) }
        },
        0x2E => {
            proof {
                reveal_strlit("SRA (HL)");
            }
            Instruction { mnemonic: "SRA (HL)", time_increment: TimeIncrement { m: 3, t: 12 }, effect: Effect::Shift(ShiftOp::Sra, Target::HlIndirect) }
        },
        0x2F => {
            proof {
                reveal_strlit("SRA A");
            }
            Instruction { mnemonic: "SRA A", time_increment: TimeIncrement { m: 1, t: 4 }, effect: Effect::Shift(ShiftOp::Sra, Target::A) }
        },
        0x30 => {
            proof {
                reveal_strlit("SWAP B");
            }
            Instruction { mnemonic: "SWAP B", time_increment: TimeIncrement { m: 1, t: 4 }, effect: Effect::Shift(ShiftOp::Swap, Target::B) }
        },
        0x31 => {
            proof {
                reveal_strlit("SWAP C");
            }
            Instruction { mnemonic: "SWAP C", time_increment: TimeIncrement { m: 1, t: 4 }, effect: Effect::Shift(ShiftOp::Swap, Target::C) }
        },
        0x32 => {
            proof {
                reveal_strlit("SWAP D");
            }
            Instruction { mnemonic: "SWAP D", time_increment: TimeIncrement { m: 1, t: 4 }, effect: Effect::Shift(ShiftOp::Swap, Target::D) }
        },
        0x33 => {
            proof {
                reveal_strlit("SWAP E");
            }
            Instruction { mnemonic: "SWAP E", time_increment: TimeIncrement { m: 1, t: 4 }, effect: Effect::Shift(ShiftOp::Swap, Target::E) }
        },
        0x34 => {
            proof {
                reveal_strlit("SWAP H");
            }
            Instruction { mnemonic: "SWAP H", time_increment: TimeIncrement { m: 1, t: 4 }, effect: Effect::Shift(ShiftOp::Swap, Target::H) }
        },
        0x35 => {
            proof {
                reveal_strlit("SWAP L");
            }
            Instruction { mnemonic: "SWAP L", time_increment: TimeIncrement { m: 1, t: 4 }, effect: Effect::Shift(ShiftOp::Swap, Target::L) }
        },
        0x36 => {
            proof {
                reveal_strlit("SWAP (HL)");
            }
            Instruction { mnemonic: "SWAP (HL)", time_increment: TimeIncrement { m: 3, t: 12 }, effect: Effect::Shift(ShiftOp::Swap, Target::HlIndirect) }
        },
        0x37 => {
            proof {
                reveal_strlit("SWAP A");
            }
            Instruction { mnemonic: "SWAP A", time_increment: TimeIncrement { m: 1, t: 4 }, effect: Effect::Shift(ShiftOp::Swap, Target::A) }
        },
        0x38 => {
            proof {
                reveal_strlit("SRL B");
            }
            Instruction { mnemonic: "SRL B", time_increment: TimeIncrement { m: 1, t: 4 }, effect: Effect::Shift(ShiftOp::Srl, Target::B) }
        },
        0x39 => {
            proof {
                reveal_strlit("SRL C");
            }
            Instruction { mnemonic: "SRL C", time_increment: TimeIncrement { m: 1, t: 4 }, effect: Effect::Shift(ShiftOp::Srl, Target::C) }
        },
        0x3A => {
            proof {
                reveal_strlit("SRL D");
            }
            Instruction { mnemonic: "SRL D", time_increment: TimeIncrement { m: 1, t: 4 }, effect: Effect::Shift(ShiftOp::Srl, Target::D) }
        },
        0x3B => {
            proof {
                reveal_strlit("SRL E");
            }
            Instruction { mnemonic: "SRL E", time_increment: TimeIncrement { m: 1, t: 4 }, effect: Effect::Shift(ShiftOp::Srl, Target::E) }
        },
        0x3C => {
            proof {
                reveal_strlit("SRL H");
            }
            Instruction { mnemonic: "SRL H", time_increment: TimeIncrement { m: 1, t: 4 }, effect: Effect::Shift(ShiftOp::Srl, Target::H) }
        },
        0x3D => {
            proof {
                reveal_strlit("SRL L");
            }
            Instruction { mnemonic: "SRL L", time_increment: TimeIncrement { m: 1, t: 4 }, effect: Effect::Shift(ShiftOp::Srl, Target::L) }
        },
        0x3E => {
            proof {
                reveal_strlit("SRL (HL)");
            }
            Instruction { mnemonic: "SRL (HL)", time_increment: TimeIncrement { m: 3, t: 12 }, effect: Effect::Shift(ShiftOp::Srl, Target::HlIndirect) }
        },
        0x3F => {
            proof {
                reveal_strlit("SRL A");
            }
            Instruction { mnemonic: "SRL A", time_increment: TimeIncrement { m: 1, t: 4 }, effect: Effect::Shift(ShiftOp::Srl, Target::A) }
        },
        _ => Instruction::default(),
    }
}

/// Secondary opcodes `0x40..=0x7F`: `BIT`.
#[verifier::rlimit(40)]
fn extended_test_quarter(opcode: u8) -> (entry: Instruction)
    requires
        0x40 <= opcode,
        opcode < 0x80,
    ensures
        entry_declares(entry, decode_extended(opcode)),
{
    match opcode {
        0x40 => {
            proof {
                reveal_strlit("BIT 0,B");
            }
            Instruction { mnemonic: "BIT 0,B", time_increment: TimeIncrement { m: 1, t: 4 }, effect: Effect::TestBit(0, Target::B) }
        },
        0x41 => {
            proof {
                reveal_strlit("BIT 0,C");
            }
            Instruction { mnemonic: "BIT 0,C", time_increment: TimeIncrement { m: 1, t: 4 }, effect: Effect::TestBit(0, Target::C) }
        },
        0x42 => {
            proof {
                reveal_strlit("BIT 0,D");
            }
            Instruction { mnemonic: "BIT 0,D", time_increment: TimeIncrement { m: 1, t: 4 }, effect: Effect::TestBit(0, Target::D) }
        },
        0x43 => {
            proof {
                reveal_strlit("BIT 0,E");
            }
            Instruction { mnemonic: "BIT 0,E", time_increment: TimeIncrement { m: 1, t: 4 }, effect: Effect::TestBit(0, Target::E) }
        },
        0x44 => {
            proof {
                reveal_strlit("BIT 0,H");
            }
            Instruction { mnemonic: "BIT 0,H", time_increment: TimeIncrement { m: 1, t: 4 }, effect: Effect::TestBit(0, Target::H) }
        },
        0x45 => {
            proof {
                reveal_strlit("BIT 0,L");
            }
            Instruction { mnemonic: "BIT 0,L", time_increment: TimeIncrement { m: 1, t: 4 }, effect: Effect::TestBit(0, Target::L) }
        },
        0x46 => {
            proof {
                reveal_strlit("BIT 0,(HL)");
            }
            Instruction { mnemonic: "BIT 0,(HL)", time_increment: TimeIncrement { m: 2, t: 8 }, effect: Effect::TestBit(0, Target::HlIndirect) }
        },
        0x47 => {
            proof {
                reveal_strlit("BIT 0,A");
            }
            Instruction { mnemonic: "BIT 0,A", time_increment: TimeIncrement { m: 1, t: 4 }, effect: Effect::TestBit(0, Target::A) }
        },
        0x48 => {
            proof {
                reveal_strlit("BIT 1,B");
            }
            Instruction { mnemonic: "BIT 1,B", time_increment: TimeIncrement { m: 1, t: 4 }, effect: Effect::TestBit(1, Target::B) }
        },
        0x49 => {
            proof {
                reveal_strlit("BIT 1,C");
            }
            Instruction { mnemonic: "BIT 1,C", time_increment: TimeIncrement { m: 1, t: 4 }, effect: Effect::TestBit(1, Target::C) }
        },
        0x4A => {
            proof {
                reveal_strlit("BIT 1,D");
            }
            Instruction { mnemonic: "BIT 1,D", time_increment: TimeIncrement { m: 1, t: 4 }, effect: Effect::TestBit(1, Target::D) }
        },
        0x4B => {
            proof {
                reveal_strlit("BIT 1,E");
            }
            Instruction { mnemonic: "BIT 1,E", time_increment: TimeIncrement { m: 1, t: 4 }, effect: Effect::TestBit(1, Target::E) }
        },
        0x4C => {
            proof {
                reveal_strlit("BIT 1,H");
            }
            Instruction { mnemonic: "BIT 1,H", time_increment: TimeIncrement { m: 1, t: 4 }, effect: Effect::TestBit(1, Target::H) }
        },
        0x4D => {
            proof {
                reveal_strlit("BIT 1,L");
            }
            Instruction { mnemonic: "BIT 1,L", time_increment: TimeIncrement { m: 1, t: 4 }, effect: Effect::TestBit(1, Target::L) }
        },
        0x4E => {
            proof {
                reveal_strlit("BIT 1,(HL)");
            }
            Instruction { mnemonic: "BIT 1,(HL)", time_increment: TimeIncrement { m: 2, t: 8 }, effect: Effect::TestBit(1, Target::HlIndirect) }
        },
        0x4F => {
            proof {
                reveal_strlit("BIT 1,A");
            }
            Instruction { mnemonic: "BIT 1,A", time_increment: TimeIncrement { m: 1, t: 4 }, effect: Effect::TestBit(1, Target::A) }
        },
        0x50 => {
            proof {
                reveal_strlit("BIT 2,B");
            }
            Instruction { mnemonic: "BIT 2,B", time_increment: TimeIncrement { m: 1, t: 4 }, effect: Effect::TestBit(2, Target::B) }
        },
        0x51 => {
            proof {
                reveal_strlit("BIT 2,C");
            }
            Instruction { mnemonic: "BIT 2,C", time_increment: TimeIncrement { m: 1, t: 4 }, effect: Effect::TestBit(2, Target::C) }
        },
        0x52 => {
            proof {
                reveal_strlit("BIT 2,D");
            }
            Instruction { mnemonic: "BIT 2,D", time_increment: TimeIncrement { m: 1, t: 4 }, effect: Effect::TestBit(2, Target::D) }
        },
        0x53 => {
            proof {
                reveal_strlit("BIT 2,E");
            }
            Instruction { mnemonic: "BIT 2,E", time_increment: TimeIncrement { m: 1, t: 4 }, effect: Effect::TestBit(2, Target::E) }
        },
        0x54 => {
            proof {
                reveal_strlit("BIT 2,H");
            }
            Instruction { mnemonic: "BIT 2,H", time_increment: TimeIncrement { m: 1, t: 4 }, effect: Effect::TestBit(2, Target::H) }
        },
        0x55 => {
            proof {
                reveal_strlit("BIT 2,L");
            }
            Instruction { mnemonic: "BIT 2,L", time_increment: TimeIncrement { m: 1, t: 4 }, effect: Effect::TestBit(2, Target::L) }
        },
        0x56 => {
            proof {
                reveal_strlit("BIT 2,(HL)");
            }
            Instruction { mnemonic: "BIT 2,(HL)", time_increment: TimeIncrement { m: 2, t: 8 }, effect: Effect::TestBit(2, Target::HlIndirect) }
        },
        0x57 => {
            proof {
                reveal_strlit("BIT 2,A");
            }
            Instruction { mnemonic: "BIT 2,A", time_increment: TimeIncrement { m: 1, t: 4 }, effect: Effect::TestBit(2, Target::A) }
        },
        0x58 => {
            proof {
                reveal_strlit("BIT 3,B");
            }
            Instruction { mnemonic: "BIT 3,B", time_increment: TimeIncrement { m: 1, t: 4 }, effect: Effect::TestBit(3, Target::B) }
        },
        0x59 => {
            proof {
                reveal_strlit("BIT 3,C");
            }
            Instruction { mnemonic: "BIT 3,C", time_increment: TimeIncrement { m: 1, t: 4 }, effect: Effect::TestBit(3, Target::C) }
        },
        0x5A => {
            proof {
                reveal_strlit("BIT 3,D");
            }
            Instruction { mnemonic: "BIT 3,D", time_increment: TimeIncrement { m: 1, t: 4 }, effect: Effect::TestBit(3, Target::D) }
        },
        0x5B => {
            proof {
                reveal_strlit("BIT 3,E");
            }
            Instruction { mnemonic: "BIT 3,E", time_increment: TimeIncrement { m: 1, t: 4 }, effect: Effect::TestBit(3, Target::E) }
        },
        0x5C => {
            proof {
                reveal_strlit("BIT 3,H");
            }
            Instruction { mnemonic: "BIT 3,H", time_increment: TimeIncrement { m: 1, t: 4 }, effect: Effect::TestBit(3, Target::H) }
        },
        0x5D => {
            proof {
                reveal_strlit("BIT 3,L");
            }
            Instruction { mnemonic: "BIT 3,L", time_increment: TimeIncrement { m: 1, t: 4 }, effect: Effect::TestBit(3, Target::L) }
        },
        0x5E => {
            proof {
                reveal_strlit("BIT 3,(HL)");
            }
            Instruction { mnemonic: "BIT 3,(HL)", time_increment: TimeIncrement { m: 2, t: 8 }, effect: Effect::TestBit(3, Target::HlIndirect) }
        },
        0x5F => {
            proof {
                reveal_strlit("BIT 3,A");
            }
            Instruction { mnemonic: "BIT 3,A", time_increment: TimeIncrement { m: 1, t: 4 }, effect: Effect::TestBit(3, Target::A) }
        },
        0x60 => {
            proof {
                reveal_strlit("BIT 4,B");
            }
            Instruction { mnemonic: "BIT 4,B", time_increment: TimeIncrement { m: 1, t: 4 }, effect: Effect::TestBit(4, Target::B) }
        },
        0x61 => {
            proof {
                reveal_strlit("BIT 4,C");
            }
            Instruction { mnemonic: "BIT 4,C", time_increment: TimeIncrement { m: 1, t: 4 }, effect: Effect::TestBit(4, Target::C) }
        },
        0x62 => {
            proof {
                reveal_strlit("BIT 4,D");
            }
            Instruction { mnemonic: "BIT 4,D", time_increment: TimeIncrement { m: 1, t: 4 }, effect: Effect::TestBit(4, Target::D) }
        },
        0x63 => {
            proof {
                reveal_strlit("BIT 4,E");
            }
            Instruction { mnemonic: "BIT 4,E", time_increment: TimeIncrement { m: 1, t: 4 }, effect: Effect::TestBit(4, Target::E) }
        },
        0x64 => {
            proof {
                reveal_strlit("BIT 4,H");
            }
            Instruction { mnemonic: "BIT 4,H", time_increment: TimeIncrement { m: 1, t: 4 }, effect: Effect::TestBit(4, Target::H) }
        },
        0x65 => {
            proof {
                reveal_strlit("BIT 4,L");
            }
            Instruction { mnemonic: "BIT 4,L", time_increment: TimeIncrement { m: 1, t: 4 }, effect: Effect::TestBit(4, Target::L) }
        },
        0x66 => {
            proof {
                reveal_strlit("BIT 4,(HL)");
            }
            Instruction { mnemonic: "BIT 4,(HL)", time_increment: TimeIncrement { m: 2, t: 8 }, effect: Effect::TestBit(4, Target::HlIndirect) }
        },
        0x67 => {
            proof {
                reveal_strlit("BIT 4,A");
            }
            Instruction { mnemonic: "BIT 4,A", time_increment: TimeIncrement { m: 1, t: 4 }, effect: Effect::TestBit(4, Target::A) }
        },
        0x68 => {
            proof {
                reveal_strlit("BIT 5,B");
            }
            Instruction { mnemonic: "BIT 5,B", time_increment: TimeIncrement { m: 1, t: 4 }, effect: Effect::TestBit(5, Target::B) }
        },
        0x69 => {
            proof {
                reveal_strlit("BIT 5,C");
            }
            Instruction { mnemonic: "BIT 5,C", time_increment: TimeIncrement { m: 1, t: 4 }, effect: Effect::TestBit(5, Target::C) }
        },
        0x6A => {
            proof {
                reveal_strlit("BIT 5,D");
            }
            Instruction { mnemonic: "BIT 5,D", time_increment: TimeIncrement { m: 1, t: 4 }, effect: Effect::TestBit(5, Target::D) }
        },
        0x6B => {
            proof {
                reveal_strlit("BIT 5,E");
            }
            Instruction { mnemonic: "BIT 5,E", time_increment: TimeIncrement { m: 1, t: 4 }, effect: Effect::TestBit(5, Target::E) }
        },
        0x6C => {
            proof {
                reveal_strlit("BIT 5,H");
            }
            Instruction { mnemonic: "BIT 5,H", time_increment: TimeIncrement { m: 1, t: 4 }, effect: Effect::TestBit(5, Target::H) }
        },
        0x6D => {
            proof {
                reveal_strlit("BIT 5,L");
            }
            Instruction { mnemonic: "BIT 5,L", time_increment: TimeIncrement { m: 1, t: 4 }, effect: Effect::TestBit(5, Target::L) }
        },
        0x6E => {
            proof {
                reveal_strlit("BIT 5,(HL)");
            }
            Instruction { mnemonic: "BIT 5,(HL)", time_increment: TimeIncrement { m: 2, t: 8 }, effect: Effect::TestBit(5, Target::HlIndirect) }
        },
        0x6F => {
            proof {
                reveal_strlit("BIT 5,A");
            }
            Instruction { mnemonic: "BIT 5,A", time_increment: TimeIncrement { m: 1, t: 4 }, effect: Effect::TestBit(5, Target::A) }
        },
        0x70 => {
            proof {
                reveal_strlit("BIT 6,B");
            }
            Instruction { mnemonic: "BIT 6,B", time_increment: TimeIncrement { m: 1, t: 4 }, effect: Effect::TestBit(6, Target::B) }
        },
        0x71 => {
            proof {
                reveal_strlit("BIT 6,C");
            }
            Instruction { mnemonic: "BIT 6,C", time_increment: TimeIncrement { m: 1, t: 4 }, effect: Effect::TestBit(6, Target::C) }
        },
        0x72 => {
            proof {
                reveal_strlit("BIT 6,D");
            }
            Instruction { mnemonic: "BIT 6,D", time_increment: TimeIncrement { m: 1, t: 4 }, effect: Effect::TestBit(6, Target::D) }
        },
        0x73 => {
            proof {
                reveal_strlit("BIT 6,E");
            }
            Instruction { mnemonic: "BIT 6,E", time_increment: TimeIncrement { m: 1, t: 4 }, effect: Effect::TestBit(6, Target::E) }
        },
        0x74 => {
            proof {
                reveal_strlit("BIT 6,H");
            }
            Instruction { mnemonic: "BIT 6,H", time_increment: TimeIncrement { m: 1, t: 4 }, effect: Effect::TestBit(6, Target::H) }
        },
        0x75 => {
            proof {
                reveal_strlit("BIT 6,L");
            }
            Instruction { mnemonic: "BIT 6,L", time_increment: TimeIncrement { m: 1, t: 4 }, effect: Effect::TestBit(6, Target::L) }
        },
        0x76 => {
            proof {
                reveal_strlit("BIT 6,(HL)");
            }
            Instruction { mnemonic: "BIT 6,(HL)", time_increment: TimeIncrement { m: 2, t: 8 }, effect: Effect::TestBit(6, Target::HlIndirect) }
        },
        0x77 => {
            proof {
                reveal_strlit("BIT 6,A");
            }
            Instruction { mnemonic: "BIT 6,A", time_increment: TimeIncrement { m: 1, t: 4 }, effect: Effect::TestBit(6, Target::A) }
        },
        0x78 => {
            proof {
                reveal_strlit("BIT 7,B");
            }
            Instruction { mnemonic: "BIT 7,B", time_increment: TimeIncrement { m: 1, t: 4 }, effect: Effect::TestBit(7, Target::B) }
        },
        0x79 => {
            proof {
                reveal_strlit("BIT 7,C");
            }
            Instruction { mnemonic: "BIT 7,C", time_increment: TimeIncrement { m: 1, t: 4 }, effect: Effect::TestBit(7, Target::C) }
        },
        0x7A => {
            proof {
                reveal_strlit("BIT 7,D");
            }
            Instruction { mnemonic: "BIT 7,D", time_increment: TimeIncrement { m: 1, t: 4 }, effect: Effect::TestBit(7, Target::D) }
        },
        0x7B => {
            proof {
                reveal_strlit("BIT 7,E");
            }
            Instruction { mnemonic: "BIT 7,E", time_increment: TimeIncrement { m: 1, t: 4 }, effect: Effect::TestBit(7, Target::E) }
        },
        0x7C => {
            proof {
                reveal_strlit("BIT 7,H");
            }
            Instruction { mnemonic: "BIT 7,H", time_increment: TimeIncrement { m: 1, t: 4 }, effect: Effect::TestBit(7, Target::H) }
        },
        0x7D => {
            proof {
                reveal_strlit("BIT 7,L");
            }
            Instruction { mnemonic: "BIT 7,L", time_increment: TimeIncrement { m: 1, t: 4 }, effect: Effect::TestBit(7, Target::L) }
        },
        0x7E => {
            proof {
                reveal_strlit("BIT 7,(HL)");
            }
            Instruction { mnemonic: "BIT 7,(HL)", time_increment: TimeIncrement { m: 2, t: 8 }, effect: Effect::TestBit(7, Target::HlIndirect) }
        },
        0x7F => {
            proof {
                reveal_strlit("BIT 7,A");
            }
            Instruction { mnemonic: "BIT 7,A", time_increment: TimeIncrement { m: 1, t: 4 }, effect: Effect::TestBit(7, Target::A) }
        },
        _ => Instruction::default(),
    }
}

/// Secondary opcodes `0x80..=0xBF`: `RES`.
#[verifier::rlimit(40)]
fn extended_reset_quarter(opcode: u8) -> (entry: Instruction)
    requires
        0x80 <= opcode,
        opcode < 0xC0,
    ensures
        entry_declares(entry, decode_extended(opcode)),
{
    match opcode {
        0x80 => {
            proof {
                reveal_strlit("RES 0,B");
            }
            Instruction { mnemonic: "RES 0,B", time_increment: TimeIncrement { m: 1, t: 4 }, effect: Effect::ResetBit(0, Target::B) }
        },
        0x81 => {
            proof {
                reveal_strlit("RES 0,C");
            }
            Instruction { mnemonic: "RES 0,C", time_increment: TimeIncrement { m: 1, t: 4 }, effect: Effect::ResetBit(0, Target::C) }
        },
        0x82 => {
            proof {
                reveal_strlit("RES 0,D");
            }
            Instruction { mnemonic: "RES 0,D", time_increment: TimeIncrement { m: 1, t: 4 }, effect: Effect::ResetBit(0, Target::D) }
        },
        0x83 => {
            proof {
                reveal_strlit("RES 0,E");
            }
            Instruction { mnemonic: "RES 0,E", time_increment: TimeIncrement { m: 1, t: 4 }, effect: Effect::ResetBit(0, Target::E) }
        },
        0x84 => {
            proof {
                reveal_strlit("RES 0,H");
            }
            Instruction { mnemonic: "RES 0,H", time_increment: TimeIncrement { m: 1, t: 4 }, effect: Effect::ResetBit(0, Target::H) }
        },
        0x85 => {
            proof {
                reveal_strlit("RES 0,L");
            }
            Instruction { mnemonic: "RES 0,L", time_increment: TimeIncrement { m: 1, t: 4 }, effect: Effect::ResetBit(0, Target::L) }
        },
        0x86 => {
            proof {
                reveal_strlit("RES 0,(HL)");
            }
            Instruction { mnemonic: "RES 0,(HL)", time_increment: TimeIncrement { m: 3, t: 12 }, effect: Effect::ResetBit(0, Target::HlIndirect) }
        },
        0x87 => {
            proof {
                reveal_strlit("RES 0,A");
            }
            Instruction { mnemonic: "RES 0,A", time_increment: TimeIncrement { m: 1, t: 4 }, effect: Effect::ResetBit(0, Target::A) }
        },
        0x88 => {
            proof {
                reveal_strlit("RES 1,B");
            }
            Instruction { mnemonic: "RES 1,B", time_increment: TimeIncrement { m: 1, t: 4 }, effect: Effect::ResetBit(1, Target::B) }
        },
        0x89 => {
            proof {
                reveal_strlit("RES 1,C");
            }
            Instruction { mnemonic: "RES 1,C", time_increment: TimeIncrement { m: 1, t: 4 }, effect: Effect::ResetBit(1, Target::C) }
        },
        0x8A => {
            proof {
                reveal_strlit("RES 1,D");
            }
            Instruction { mnemonic: "RES 1,D", time_increment: TimeIncrement { m: 1, t: 4 }, effect: Effect::ResetBit(1, Target::D) }
        },
        0x8B => {
            proof {
                reveal_strlit("RES 1,E");
            }
            Instruction { mnemonic: "RES 1,E", time_increment: TimeIncrement { m: 1, t: 4 }, effect: Effect::ResetBit(1, Target::E) }
        },
        0x8C => {
            proof {
                reveal_strlit("RES 1,H");
            }
            Instruction { mnemonic: "RES 1,H", time_increment: TimeIncrement { m: 1, t: 4 }, effect: Effect::ResetBit(1, Target::H) }
        },
        0x8D => {
            proof {
                reveal_strlit("RES 1,L");
            }
            Instruction { mnemonic: "RES 1,L", time_increment: TimeIncrement { m: 1, t: 4 }, effect: Effect::ResetBit(1, Target::L) }
        },
        0x8E => {
            proof {
                reveal_strlit("RES 1,(HL)");
            }
            Instruction { mnemonic: "RES 1,(HL)", time_increment: TimeIncrement { m: 3, t: 12 }, effect: Effect::ResetBit(1, Target::HlIndirect) }
        },
        0x8F => {
            proof {
                reveal_strlit("RES 1,A");
            }
            Instruction { mnemonic: "RES 1,A", time_increment: TimeIncrement { m: 1, t: 4 }, effect: Effect::ResetBit(1, Target::A) }
        },
        0x90 => {
            proof {
                reveal_strlit("RES 2,B");
            }
            Instruction { mnemonic: "RES 2,B", time_increment: TimeIncrement { m: 1, t: 4 }, effect: Effect::ResetBit(2, Target::B) }
        },
        0x91 => {
            proof {
                reveal_strlit("RES 2,C");
            }
            Instruction { mnemonic: "RES 2,C", time_increment: TimeIncrement { m: 1, t: 4 }, effect: Effect::ResetBit(2, Target::C) }
        },
        0x92 => {
            proof {
                reveal_strlit("RES 2,D");
            }
            Instruction { mnemonic: "RES 2,D", time_increment: TimeIncrement { m: 1, t: 4 }, effect: Effect::ResetBit(2, Target::D) }
        },
        0x93 => {
            proof {
                reveal_strlit("RES 2,E");
            }
            Instruction { mnemonic: "RES 2,E", time_increment: TimeIncrement { m: 1, t: 4 }, effect: Effect::ResetBit(2, Target::E) }
        },
        0x94 => {
            proof {
                reveal_strlit("RES 2,H");
            }
            Instruction { mnemonic: "RES 2,H", time_increment: TimeIncrement { m: 1, t: 4 }, effect: Effect::ResetBit(2, Target::H) }
        },
        0x95 => {
            proof {
                reveal_strlit("RES 2,L");
            }
            Instruction { mnemonic: "RES 2,L", time_increment: TimeIncrement { m: 1, t: 4 }, effect: Effect::ResetBit(2, Target::L) }
        },
        0x96 => {
            proof {
                reveal_strlit("RES 2,(HL)");
            }
            Instruction { mnemonic: "RES 2,(HL)", time_increment: TimeIncrement { m: 3, t: 12 }, effect: Effect::ResetBit(2, Target::HlIndirect) }
        },
        0x97 => {
            proof {
                reveal_strlit("RES 2,A");
            }
            Instruction { mnemonic: "RES 2,A", time_increment: TimeIncrement { m: 1, t: 4 }, effect: Effect::ResetBit(2, Target::A) }
        },
        0x98 => {
            proof {
                reveal_strlit("RES 3,B");
            }
            Instruction { mnemonic: "RES 3,B", time_increment: TimeIncrement { m: 1, t: 4 }, effect: Effect::ResetBit(3, Target::B) }
        },
        0x99 => {
            proof {
                reveal_strlit("RES 3,C");
            }
            Instruction { mnemonic: "RES 3,C", time_increment: TimeIncrement { m: 1, t: 4 }, effect: Effect::ResetBit(3, Target::C) }
        },
        0x9A => {
            proof {
                reveal_strlit("RES 3,D");
            }
            Instruction { mnemonic: "RES 3,D", time_increment: TimeIncrement { m: 1, t: 4 }, effect: Effect::ResetBit(3, Target::D) }
        },
        0x9B => {
            proof {
                reveal_strlit("RES 3,E");
            }
            Instruction { mnemonic: "RES 3,E", time_increment: TimeIncrement { m: 1, t: 4 }, effect: Effect::ResetBit(3, Target::E) }
        },
        0x9C => {
            proof {
                reveal_strlit("RES 3,H");
            }
            Instruction { mnemonic: "RES 3,H", time_increment: TimeIncrement { m: 1, t: 4 }, effect: Effect::ResetBit(3, Target::H) }
        },
        0x9D => {
            proof {
                reveal_strlit("RES 3,L");
            }
            Instruction { mnemonic: "RES 3,L", time_increment: TimeIncrement { m: 1, t: 4 }, effect: Effect::ResetBit(3, Target::L) }
        },
        0x9E => {
            proof {
                reveal_strlit("RES 3,(HL)");
            }
            Instruction { mnemonic: "RES 3,(HL)", time_increment: TimeIncrement { m: 3, t: 12 }, effect: Effect::ResetBit(3, Target::HlIndirect) }
        },
        0x9F => {
            proof {
                reveal_strlit("RES 3,A");
            }
            Instruction { mnemonic: "RES 3,A", time_increment: TimeIncrement { m: 1, t: 4 }, effect: Effect::ResetBit(3, Target::A) }
        },
        0xA0 => {
            proof {
                reveal_strlit("RES 4,B");
            }
            Instruction { mnemonic: "RES 4,B", time_increment: TimeIncrement { m: 1, t: 4 }, effect: Effect::ResetBit(4, Target::B) }
        },
        0xA1 => {
            proof {
                reveal_strlit("RES 4,C");
            }
            Instruction { mnemonic: "RES 4,C", time_increment: TimeIncrement { m: 1, t: 4 }, effect: Effect::ResetBit(4, Target::C) }
        },
        0xA2 => {
            proof {
                reveal_strlit("RES 4,D");
            }
            Instruction { mnemonic: "RES 4,D", time_increment: TimeIncrement { m: 1, t: 4 }, effect: Effect::ResetBit(4, Target::D) }
        },
        0xA3 => {
            proof {
                reveal_strlit("RES 4,E");
            }
            Instruction { mnemonic: "RES 4,E", time_increment: TimeIncrement { m: 1, t: 4 }, effect: Effect::ResetBit(4, Target::E) }
        },
        0xA4 => {
            proof {
                reveal_strlit("RES 4,H");
            }
            Instruction { mnemonic: "RES 4,H", time_increment: TimeIncrement { m: 1, t: 4 }, effect: Effect::ResetBit(4, Target::H) }
        },
        0xA5 => {
            proof {
                reveal_strlit("RES 4,L");
            }
            Instruction { mnemonic: "RES 4,L", time_increment: TimeIncrement { m: 1, t: 4 }, effect: Effect::ResetBit(4, Target::L) }
        },
        0xA6 => {
            proof {
                reveal_strlit("RES 4,(HL)");
            }
            Instruction { mnemonic: "RES 4,(HL)", time_increment: TimeIncrement { m: 3, t: 12 }, effect: Effect::ResetBit(4, Target::HlIndirect) }
        },
        0xA7 => {
            proof {
                reveal_strlit("RES 4,A");
            }
            Instruction { mnemonic: "RES 4,A", time_increment: TimeIncrement { m: 1, t: 4 }, effect: Effect::ResetBit(4, Target::A) }
        },
        0xA8 => {
            proof {
                reveal_strlit("RES 5,B");
            }
            Instruction { mnemonic: "RES 5,B", time_increment: TimeIncrement { m: 1, t: 4 }, effect: Effect::ResetBit(5, Target::B) }
        },
        0xA9 => {
            proof {
                reveal_strlit("RES 5,C");
            }
            Instruction { mnemonic: "RES 5,C", time_increment: TimeIncrement { m: 1, t: 4 }, effect: Effect::ResetBit(5, Target::C) }
        },
        0xAA => {
            proof {
                reveal_strlit("RES 5,D");
            }
            Instruction { mnemonic: "RES 5,D", time_increment: TimeIncrement { m: 1, t: 4 }, effect: Effect::ResetBit(5, Target::D) }
        },
        0xAB => {
            proof {
                reveal_strlit("RES 5,E");
            }
            Instruction { mnemonic: "RES 5,E", time_increment: TimeIncrement { m: 1, t: 4 }, effect: Effect::ResetBit(5, Target::E) }
        },
        0xAC => {
            proof {
                reveal_strlit("RES 5,H");
            }
            Instruction { mnemonic: "RES 5,H", time_increment: TimeIncrement { m: 1, t: 4 }, effect: Effect::ResetBit(5, Target::H) }
        },
        0xAD => {
            proof {
                reveal_strlit("RES 5,L");
            }
            Instruction { mnemonic: "RES 5,L", time_increment: TimeIncrement { m: 1, t: 4 }, effect: Effect::ResetBit(5, Target::L) }
        },
        0xAE => {
            proof {
                reveal_strlit("RES 5,(HL)");
            }
            Instruction { mnemonic: "RES 5,(HL)", time_increment: TimeIncrement { m: 3, t: 12 }, effect: Effect::ResetBit(5, Target::HlIndirect) }
        },
        0xAF => {
            proof {
                reveal_strlit("RES 5,A");
            }
            Instruction { mnemonic: "RES 5,A", time_increment: TimeIncrement { m: 1, t: 4 }, effect: Effect::ResetBit(5, Target::A) }
        },
        0xB0 => {
            proof {
                reveal_strlit("RES 6,B");
            }
            Instruction { mnemonic: "RES 6,B", time_increment: TimeIncrement { m: 1, t: 4 }, effect: Effect::ResetBit(6, Target::B) }
        },
        0xB1 => {
            proof {
                reveal_strlit("RES 6,C");
            }
            Instruction { mnemonic: "RES 6,C", time_increment: TimeIncrement { m: 1, t: 4 }, effect: Effect::ResetBit(6, Target::C) }
        },
        0xB2 => {
            proof {
                reveal_strlit("RES 6,D");
            }
            Instruction { mnemonic: "RES 6,D", time_increment: TimeIncrement { m: 1, t: 4 }, effect: Effect::ResetBit(6, Target::D) }
        },
        0xB3 => {
            proof {
                reveal_strlit("RES 6,E");
            }
            Instruction { mnemonic: "RES 6,E", time_increment: TimeIncrement { m: 1, t: 4 }, effect: Effect::ResetBit(6, Target::E) }
        },
        0xB4 => {
            proof {
                reveal_strlit("RES 6,H");
            }
            Instruction { mnemonic: "RES 6,H", time_increment: TimeIncrement { m: 1, t: 4 }, effect: Effect::ResetBit(6, Target::H) }
        },
        0xB5 => {
            proof {
                reveal_strlit("RES 6,L");
            }
            Instruction { mnemonic: "RES 6,L", time_increment: TimeIncrement { m: 1, t: 4 }, effect: Effect::ResetBit(6, Target::L) }
        },
        0xB6 => {
            proof {
                reveal_strlit("RES 6,(HL)");
            }
            Instruction { mnemonic: "RES 6,(HL)", time_increment: TimeIncrement { m: 3, t: 12 }, effect: Effect::ResetBit(6, Target::HlIndirect) }
        },
        0xB7 => {
            proof {
                reveal_strlit("RES 6,A");
            }
            Instruction { mnemonic: "RES 6,A", time_increment: TimeIncrement { m: 1, t: 4 }, effect: Effect::ResetBit(6, Target::A) }
        },
        0xB8 => {
            proof {
                reveal_strlit("RES 7,B");
            }
            Instruction { mnemonic: "RES 7,B", time_increment: TimeIncrement { m: 1, t: 4 }, effect: Effect::ResetBit(7, Target::B) }
        },
        0xB9 => {
            proof {
                reveal_strlit("RES 7,C");
            }
            Instruction { mnemonic: "RES 7,C", time_increment: TimeIncrement { m: 1, t: 4 }, effect: Effect::ResetBit(7, Target::C) }
        },
        0xBA => {
            proof {
                reveal_strlit("RES 7,D");
            }
            Instruction { mnemonic: "RES 7,D", time_increment: TimeIncrement { m: 1, t: 4 }, effect: Effect::ResetBit(7, Target::D) }
        },
        0xBB => {
            proof {
                reveal_strlit("RES 7,E");
            }
            Instruction { mnemonic: "RES 7,E", time_increment: TimeIncrement { m: 1, t: 4 }, effect: Effect::ResetBit(7, Target::E) }
        },
        0xBC => {
            proof {
                reveal_strlit("RES 7,H");
            }
            Instruction { mnemonic: "RES 7,H", time_increment: TimeIncrement { m: 1, t: 4 }, effect: Effect::ResetBit(7, Target::H) }
        },
        0xBD => {
            proof {
                reveal_strlit("RES 7,L");
            }
            Instruction { mnemonic: "RES 7,L", time_increment: TimeIncrement { m: 1, t: 4 }, effect: Effect::ResetBit(7, Target::L) }
        },
        0xBE => {
            proof {
                reveal_strlit("RES 7,(HL)");
            }
            Instruction { mnemonic: "RES 7,(HL)", time_increment: TimeIncrement { m: 3, t: 12 }, effect: Effect::ResetBit(7, Target::HlIndirect) }
        },
        0xBF => {
            proof {
                reveal_strlit("RES 7,A");
            }
            Instruction { mnemonic: "RES 7,A", time_increment: TimeIncrement { m: 1, t: 4 }, effect: Effect::ResetBit(7, Target::A) }
        },
        _ => Instruction::default(),
    }
}

/// Secondary opcodes `0xC0..=0xFF`: `SET`.
#[verifier::rlimit(40)]
fn extended_set_quarter(opcode: u8) -> (entry: Instruction)
    requires
        0xC0 <= opcode,
    ensures
        entry_declares(entry, decode_extended(opcode)),
{
    match opcode {
        0xC0 => {
            proof {
                reveal_strlit("SET 0,B");
            }
            Instruction { mnemonic: "SET 0,B", time_increment: TimeIncrement { m: 1, t: 4 }, effect: Effect::SetBit(0, Target::B) }
        },
        0xC1 => {
            proof {
                reveal_strlit("SET 0,C");
            }
            Instruction { mnemonic: "SET 0,C", time_increment: TimeIncrement { m: 1, t: 4 }, effect: Effect::SetBit(0, Target::C) }
        },
        0xC2 => {
            proof {
                reveal_strlit("SET 0,D");
            }
            Instruction { mnemonic: "SET 0,D", time_increment: TimeIncrement { m: 1, t: 4 }, effect: Effect::SetBit(0, Target::D) }
        },
        0xC3 => {
            proof {
                reveal_strlit("SET 0,E");
            }
            Instruction { mnemonic: "SET 0,E", time_increment: TimeIncrement { m: 1, t: 4 }, effect: Effect::SetBit(0, Target::E) }
        },
        0xC4 => {
            proof {
                reveal_strlit("SET 0,H");
            }
            Instruction { mnemonic: "SET 0,H", time_increment: TimeIncrement { m: 1, t: 4 }, effect: Effect::SetBit(0, Target::H) }
        },
        0xC5 => {
            proof {
                reveal_strlit("SET 0,L");
            }
            Instruction { mnemonic: "SET 0,L", time_increment: TimeIncrement { m: 1, t: 4 }, effect: Effect::SetBit(0, Target::L) }
        },
        0xC6 => {
            proof {
                reveal_strlit("SET 0,(HL)");
            }
            Instruction { mnemonic: "SET 0,(HL)", time_increment: TimeIncrement { m: 3, t: 12 }, effect: Effect::SetBit(0, Target::HlIndirect) }
        },
        0xC7 => {
            proof {
                reveal_strlit("SET 0,A");
            }
            Instruction { mnemonic: "SET 0,A", time_increment: TimeIncrement { m: 1, t: 4 }, effect: Effect::SetBit(0, Target::A) }
        },
        0xC8 => {
            proof {
                reveal_strlit("SET 1,B");
            }
            Instruction { mnemonic: "SET 1,B", time_increment: TimeIncrement { m: 1, t: 4 }, effect: Effect::SetBit(1, Target::B) }
        },
        0xC9 => {
            proof {
                reveal_strlit("SET 1,C");
            }
            Instruction { mnemonic: "SET 1,C", time_increment: TimeIncrement { m: 1, t: 4 }, effect: Effect::SetBit(1, Target::C) }
        },
        0xCA => {
            proof {
                reveal_strlit("SET 1,D");
            }
            Instruction { mnemonic: "SET 1,D", time_increment: TimeIncrement { m: 1, t: 4 }, effect: Effect::SetBit(1, Target::D) }
        },
        0xCB => {
            proof {
                reveal_strlit("SET 1,E");
            }
            Instruction { mnemonic: "SET 1,E", time_increment: TimeIncrement { m: 1, t: 4 }, effect: Effect::SetBit(1, Target::E) }
        },
        0xCC => {
            proof {
                reveal_strlit("SET 1,H");
            }
            Instruction { mnemonic: "SET 1,H", time_increment: TimeIncrement { m: 1, t: 4 }, effect: Effect::SetBit(1, Target::H) }
        },
        0xCD => {
            proof {
                reveal_strlit("SET 1,L");
            }
            Instruction { mnemonic: "SET 1,L", time_increment: TimeIncrement { m: 1, t: 4 }, effect: Effect::SetBit(1, Target::L) }
        },
        0xCE => {
            proof {
                reveal_strlit("SET 1,(HL)");
            }
            Instruction { mnemonic: "SET 1,(HL)", time_increment: TimeIncrement { m: 3, t: 12 }, effect: Effect::SetBit(1, Target::HlIndirect) }
        },
        0xCF => {
            proof {
                reveal_strlit("SET 1,A");
            }
            Instruction { mnemonic: "SET 1,A", time_increment: TimeIncrement { m: 1, t: 4 }, effect: Effect::SetBit(1, Target::A) }
        },
        0xD0 => {
            proof {
                reveal_strlit("SET 2,B");
            }
            Instruction { mnemonic: "SET 2,B", time_increment: TimeIncrement { m: 1, t: 4 }, effect: Effect::SetBit(2, Target::B) }
        },
        0xD1 => {
            proof {
                reveal_strlit("SET 2,C");
            }
            Instruction { mnemonic: "SET 2,C", time_increment: TimeIncrement { m: 1, t: 4 }, effect: Effect::SetBit(2, Target::C) }
        },
        0xD2 => {
            proof {
                reveal_strlit("SET 2,D");
            }
            Instruction { mnemonic: "SET 2,D", time_increment: TimeIncrement { m: 1, t: 4 }, effect: Effect::SetBit(2, Target::D) }
        },
        0xD3 => {
            proof {
                reveal_strlit("SET 2,E");
            }
            Instruction { mnemonic: "SET 2,E", time_increment: TimeIncrement { m: 1, t: 4 }, effect: Effect::SetBit(2, Target::E) }
        },
        0xD4 => {
            proof {
                reveal_strlit("SET 2,H");
            }
            Instruction { mnemonic: "SET 2,H", time_increment: TimeIncrement { m: 1, t: 4 }, effect: Effect::SetBit(2, Target::H) }
        },
        0xD5 => {
            proof {
                reveal_strlit("SET 2,L");
            }
            Instruction { mnemonic: "SET 2,L", time_increment: TimeIncrement { m: 1, t: 4 }, effect: Effect::SetBit(2, Target::L) }
        },
        0xD6 => {
            proof {
                reveal_strlit("SET 2,(HL)");
            }
            Instruction { mnemonic: "SET 2,(HL)", time_increment: TimeIncrement { m: 3, t: 12 }, effect: Effect::SetBit(2, Target::HlIndirect) }
        },
        0xD7 => {
            proof {
                reveal_strlit("SET 2,A");
            }
            Instruction { mnemonic: "SET 2,A", time_increment: TimeIncrement { m: 1, t: 4 }, effect: Effect::SetBit(2, Target::A) }
        },
        0xD8 => {
            proof {
                reveal_strlit("SET 3,B");
            }
            Instruction { mnemonic: "SET 3,B", time_increment: TimeIncrement { m: 1, t: 4 }, effect: Effect::SetBit(3, Target::B) }
        },
        0xD9 => {
            proof {
                reveal_strlit("SET 3,C");
            }
            Instruction { mnemonic: "SET 3,C", time_increment: TimeIncrement { m: 1, t: 4 }, effect: Effect::SetBit(3, Target::C) }
        },
        0xDA => {
            proof {
                reveal_strlit("SET 3,D");
            }
            Instruction { mnemonic: "SET 3,D", time_increment: TimeIncrement { m: 1, t: 4 }, effect: Effect::SetBit(3, Target::D) }
        },
        0xDB => {
            proof {
                reveal_strlit("SET 3,E");
            }
            Instruction { mnemonic: "SET 3,E", time_increment: TimeIncrement { m: 1, t: 4 }, effect: Effect::SetBit(3, Target::E) }
        },
        0xDC => {
            proof {
                reveal_strlit("SET 3,H");
            }
            Instruction { mnemonic: "SET 3,H", time_increment: TimeIncrement { m: 1, t: 4 }, effect: Effect::SetBit(3, Target::H) }
        },
        0xDD => {
            proof {
                reveal_strlit("SET 3,L");
            }
            Instruction { mnemonic: "SET 3,L", time_increment: TimeIncrement { m: 1, t: 4 }, effect: Effect::SetBit(3, Target::L) }
        },
        0xDE => {
            proof {
                reveal_strlit("SET 3,(HL)");
            }
            Instruction { mnemonic: "SET 3,(HL)", time_increment: TimeIncrement { m: 3, t: 12 }, effect: Effect::SetBit(3, Target::HlIndirect) }
        },
        0xDF => {
            proof {
                reveal_strlit("SET 3,A");
            }
            Instruction { mnemonic: "SET 3,A", time_increment: TimeIncrement { m: 1, t: 4 }, effect: Effect::SetBit(3, Target::A) }
        },
        0xE0 => {
            proof {
                reveal_strlit("SET 4,B");
            }
            Instruction { mnemonic: "SET 4,B", time_increment: TimeIncrement { m: 1, t: 4 }, effect: Effect::SetBit(4, Target::B) }
        },
        0xE1 => {
            proof {
                reveal_strlit("SET 4,C");
            }
            Instruction { mnemonic: "SET 4,C", time_increment: TimeIncrement { m: 1, t: 4 }, effect: Effect::SetBit(4, Target::C) }
        },
        0xE2 => {
            proof {
                reveal_strlit("SET 4,D");
            }
            Instruction { mnemonic: "SET 4,D", time_increment: TimeIncrement { m: 1, t: 4 }, effect: Effect::SetBit(4, Target::D) }
        },
        0xE3 => {
            proof {
                reveal_strlit("SET 4,E");
            }
            Instruction { mnemonic: "SET 4,E", time_increment: TimeIncrement { m: 1, t: 4 }, effect: Effect::SetBit(4, Target::E) }
        },
        0xE4 => {
            proof {
                reveal_strlit("SET 4,H");
            }
            Instruction { mnemonic: "SET 4,H", time_increment: TimeIncrement { m: 1, t: 4 }, effect: Effect::SetBit(4, Target::H) }
        },
        0xE5 => {
            proof {
                reveal_strlit("SET 4,L");
            }
            Instruction { mnemonic: "SET 4,L", time_increment: TimeIncrement { m: 1, t: 4 }, effect: Effect::SetBit(4, Target::L) }
        },
        0xE6 => {
            proof {
                reveal_strlit("SET 4,(HL)");
            }
            Instruction { mnemonic: "SET 4,(HL)", time_increment: TimeIncrement { m: 3, t: 12 }, effect: Effect::SetBit(4, Target::HlIndirect) }
        },
        0xE7 => {
            proof {
                reveal_strlit("SET 4,A");
            }
            Instruction { mnemonic: "SET 4,A", time_increment: TimeIncrement { m: 1, t: 4 }, effect: Effect::SetBit(4, Target::A) }
        },
        0xE8 => {
            proof {
                reveal_strlit("SET 5,B");
            }
            Instruction { mnemonic: "SET 5,B", time_increment: TimeIncrement { m: 1, t: 4 }, effect: Effect::SetBit(5, Target::B) }
        },
        0xE9 => {
            proof {
                reveal_strlit("SET 5,C");
            }
            Instruction { mnemonic: "SET 5,C", time_increment: TimeIncrement { m: 1, t: 4 }, effect: Effect::SetBit(5, Target::C) }
        },
        0xEA => {
            proof {
                reveal_strlit("SET 5,D");
            }
            Instruction { mnemonic: "SET 5,D", time_increment: TimeIncrement { m: 1, t: 4 }, effect: Effect::SetBit(5, Target::D) }
        },
        0xEB => {
            proof {
                reveal_strlit("SET 5,E");
            }
            Instruction { mnemonic: "SET 5,E", time_increment: TimeIncrement { m: 1, t: 4 }, effect: Effect::SetBit(5, Target::E) }
        },
        0xEC => {
            proof {
                reveal_strlit("SET 5,H");
            }
            Instruction { mnemonic: "SET 5,H", time_increment: TimeIncrement { m: 1, t: 4 }, effect: Effect::SetBit(5, Target::H) }
        },
        0xED => {
            proof {
                reveal_strlit("SET 5,L");
            }
            Instruction { mnemonic: "SET 5,L", time_increment: TimeIncrement { m: 1, t: 4 }, effect: Effect::SetBit(5, Target::L) }
        },
        0xEE => {
            proof {
                reveal_strlit("SET 5,(HL)");
            }
            Instruction { mnemonic: "SET 5,(HL)", time_increment: TimeIncrement { m: 3, t: 12 }, effect: Effect::SetBit(5, Target::HlIndirect) }
        },
        0xEF => {
            proof {
                reveal_strlit("SET 5,A");
            }
            Instruction { mnemonic: "SET 5,A", time_increment: TimeIncrement { m: 1, t: 4 }, effect: Effect::SetBit(5, Target::A) }
        },
        0xF0 => {
            proof {
                reveal_strlit("SET 6,B");
            }
            Instruction { mnemonic: "SET 6,B", time_increment: TimeIncrement { m: 1, t: 4 }, effect: Effect::SetBit(6, Target::B) }
        },
        0xF1 => {
            proof {
                reveal_strlit("SET 6,C");
            }
            Instruction { mnemonic: "SET 6,C", time_increment: TimeIncrement { m: 1, t: 4 }, effect: Effect::SetBit(6, Target::C) }
        },
        0xF2 => {
            proof {
                reveal_strlit("SET 6,D");
            }
            Instruction { mnemonic: "SET 6,D", time_increment: TimeIncrement { m: 1, t: 4 }, effect: Effect::SetBit(6, Target::D) }
        },
        0xF3 => {
            proof {
                reveal_strlit("SET 6,E");
            }
            Instruction { mnemonic: "SET 6,E", time_increment: TimeIncrement { m: 1, t: 4 }, effect: Effect::SetBit(6, Target::E) }
        },
        0xF4 => {
            proof {
                reveal_strlit("SET 6,H");
            }
            Instruction { mnemonic: "SET 6,H", time_increment: TimeIncrement { m: 1, t: 4 }, effect: Effect::SetBit(6, Target::H) }
        },
        0xF5 => {
            proof {
                reveal_strlit("SET 6,L");
            }
            Instruction { mnemonic: "SET 6,L", time_increment: TimeIncrement { m: 1, t: 4 }, effect: Effect::SetBit(6, Target::L) }
        },
        0xF6 => {
            proof {
                reveal_strlit("SET 6,(HL)");
            }
            Instruction { mnemonic: "SET 6,(HL)", time_increment: TimeIncrement { m: 3, t: 12 }, effect: Effect::SetBit(6, Target::HlIndirect) }
        },
        0xF7 => {
            proof {
                reveal_strlit("SET 6,A");
            }
            Instruction { mnemonic: "SET 6,A", time_increment: TimeIncrement { m: 1, t: 4 }, effect: Effect::SetBit(6, Target::A) }
        },
        0xF8 => {
            proof {
                reveal_strlit("SET 7,B");
            }
            Instruction { mnemonic: "SET 7,B", time_increment: TimeIncrement { m: 1, t: 4 }, effect: Effect::SetBit(7, Target::B) }
        },
        0xF9 => {
            proof {
                reveal_strlit("SET 7,C");
            }
            Instruction { mnemonic: "SET 7,C", time_increment: TimeIncrement { m: 1, t: 4 }, effect: Effect::SetBit(7, Target::C) }
        },
        0xFA => {
            proof {
                reveal_strlit("SET 7,D");
            }
            Instruction { mnemonic: "SET 7,D", time_increment: TimeIncrement { m: 1, t: 4 }, effect: Effect::SetBit(7, Target::D) }
        },
        0xFB => {
            proof {
                reveal_strlit("SET 7,E");
            }
            Instruction { mnemonic: "SET 7,E", time_increment: TimeIncrement { m: 1, t: 4 }, effect: Effect::SetBit(7, Target::E) }
        },
        0xFC => {
            proof {
                reveal_strlit("SET 7,H");
            }
            Instruction { mnemonic: "SET 7,H", time_increment: TimeIncrement { m: 1, t: 4 }, effect: Effect::SetBit(7, Target::H) }
        },
        0xFD => {
            proof {
                reveal_strlit("SET 7,L");
            }
            Instruction { mnemonic: "SET 7,L", time_increment: TimeIncrement { m: 1, t: 4 }, effect: Effect::SetBit(7, Target::L) }
        },
        0xFE => {
            proof {
                reveal_strlit("SET 7,(HL)");
            }
            Instruction { mnemonic: "SET 7,(HL)", time_increment: TimeIncrement { m: 3, t: 12 }, effect: Effect::SetBit(7, Target::HlIndirect) }
        },
        0xFF => {
            proof {
                reveal_strlit("SET 7,A");
            }
            Instruction { mnemonic: "SET 7,A", time_increment: TimeIncrement { m: 1, t: 4 }, effect: Effect::SetBit(7, Target::A) }
        },
        _ => Instruction::default(),
    }
}

/// The entry of the primary table for `opcode`.
pub fn primary_instruction(opcode: u8) -> (entry: Instruction)
    ensures
        entry_declares(entry, decode_primary(opcode)),
{
    if opcode < 0x40 {
        primary_low_quarter(opcode)
    } else if opcode < 0x80 {
        primary_load_quarter(opcode)
    } else if opcode < 0xC0 {
        primary_alu_quarter(opcode)
    } else {
        primary_high_quarter(opcode)
    }
}

/// The entry of the secondary table for `opcode`.
pub fn extended_instruction(opcode: u8) -> (entry: Instruction)
    ensures
        entry_declares(entry, decode_extended(opcode)),
{
    if opcode < 0x40 {
        extended_shift_quarter(opcode)
    } else if opcode < 0x80 {
        extended_test_quarter(opcode)
    } else if opcode < 0xC0 {
        extended_reset_quarter(opcode)
    } else {
        extended_set_quarter(opcode)
    }
}

/// The primary table, indexed by opcode.
pub fn instructions() -> (table: [Instruction; 256])
    ensures
        is_primary_table(table),
{
    let mut table: [Instruction; 256] = [Instruction::default();256];
    let mut opcode: u8 = 0;
    loop
        invariant
            forall|done: u8| done < opcode ==> entry_declares(
                #[trigger] table[done as int],
                decode_primary(done),
            ),
        ensures
            is_primary_table(table),
        decreases 255 - opcode,
    {
        table[opcode as usize] = primary_instruction(opcode);
        if opcode == 255 {
            break ;
        }
        opcode += 1;
    }
    table
}

/// The secondary table, indexed by the byte that follows the escape opcode.
pub fn cb_instructions() -> (table: [Instruction; 256])
    ensures
        is_extended_table(table),
{
    let mut table: [Instruction; 256] = [Instruction::default();256];
    let mut opcode: u8 = 0;
    loop
        invariant
            forall|done: u8| done < opcode ==> entry_declares(
                #[trigger] table[done as int],
                decode_extended(done),
            ),
        ensures
            is_extended_table(table),
        decreases 255 - opcode,
    {
        table[opcode as usize] = extended_instruction(opcode);
        if opcode == 255 {
            break ;
        }
        opcode += 1;
    }
    table
}

} // verus!
