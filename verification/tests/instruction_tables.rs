use gameboy_core::isa::{
    AluOp, Condition, Effect, Instruction, Pair, Pointer, ShiftOp, StackPair, Target,
    TimeIncrement,
};
use gameboy_core::tables::{
    cb_instructions, extended_instruction, instructions, primary_instruction,
};

const WITHOUT_BEHAVIOUR: [u8; 16] = [
    0x10, 0x76, 0xD3, 0xD9, 0xDB, 0xDD, 0xE3, 0xE4, 0xEB, 0xEC, 0xED, 0xF3, 0xF4, 0xFB, 0xFC,
    0xFD,
];

#[test]
fn primary_table_has_no_gaps() {
    let table = instructions();
    assert_eq!(table.len(), 256);
    for (opcode, entry) in table.iter().enumerate() {
        assert!(!entry.mnemonic.is_empty(), "opcode {:#04x}", opcode);
        assert_eq!(entry.time_increment.t, 4 * entry.time_increment.m);
        if entry.effect == Effect::Unimplemented {
            assert_eq!(entry.time_increment, TimeIncrement { m: 0, t: 0 });
        } else {
            assert!(entry.time_increment.m >= 1);
            assert!(entry.time_increment.m <= 6);
        }
    }
}

#[test]
fn secondary_table_has_no_gaps() {
    let table = cb_instructions();
    assert_eq!(table.len(), 256);
    for (opcode, entry) in table.iter().enumerate() {
        assert!(!entry.mnemonic.is_empty(), "opcode {:#04x}", opcode);
        assert_eq!(entry.time_increment.t, 4 * entry.time_increment.m);
        assert_ne!(entry.effect, Effect::Unimplemented);
        assert_ne!(entry.effect, Effect::Prefix);
        assert!(entry.time_increment.m >= 1);
        assert!(entry.time_increment.m <= 3);
    }
}

#[test]
fn sixteen_primary_opcodes_have_no_behaviour() {
    let table = instructions();
    for opcode in 0..=255u8 {
        let marked = table[opcode as usize].effect == Effect::Unimplemented;
        assert_eq!(marked, WITHOUT_BEHAVIOUR.contains(&opcode), "opcode {:#04x}", opcode);
    }
}

#[test]
fn tables_hold_the_entries_of_the_lookup_functions() {
    let primary = instructions();
    let secondary = cb_instructions();
    for opcode in 0..=255u8 {
        let entry = primary_instruction(opcode);
        assert_eq!(primary[opcode as usize].mnemonic, entry.mnemonic);
        assert_eq!(primary[opcode as usize].time_increment, entry.time_increment);
        assert_eq!(primary[opcode as usize].effect, entry.effect);
        let entry = extended_instruction(opcode);
        assert_eq!(secondary[opcode as usize].mnemonic, entry.mnemonic);
        assert_eq!(secondary[opcode as usize].time_increment, entry.time_increment);
        assert_eq!(secondary[opcode as usize].effect, entry.effect);
    }
}

#[test]
fn default_entry_is_unimplemented() {
    let entry = Instruction::default();
    assert_eq!(entry.mnemonic, "Unimplemented");
    assert_eq!(entry.time_increment, TimeIncrement { m: 0, t: 0 });
    assert_eq!(entry.effect, Effect::Unimplemented);
    assert_eq!(TimeIncrement::default(), TimeIncrement { m: 0, t: 0 });
}

fn table_row(opcode: u8) -> (&'static str, u8, u8, Effect) {
    let entry = instructions()[opcode as usize];
    (entry.mnemonic, entry.time_increment.m, entry.time_increment.t, entry.effect)
}

fn table_cb_row(opcode: u8) -> (&'static str, u8, u8, Effect) {
    let entry = cb_instructions()[opcode as usize];
    (entry.mnemonic, entry.time_increment.m, entry.time_increment.t, entry.effect)
}

#[test]
fn primary_entries_of_the_first_quarter() {
    assert_eq!(table_row(0x00), ("NOP", 1, 4, Effect::Nop));
    assert_eq!(table_row(0x01), ("LD BC,d16", 3, 12, Effect::LoadPairImmediate(Pair::BC)));
    assert_eq!(table_row(0x02), ("LD (BC),A", 2, 8, Effect::StoreAccumulator(Pointer::BC)));
    assert_eq!(table_row(0x08), ("LD (a16),SP", 5, 20, Effect::StoreStackPointer));
    assert_eq!(table_row(0x09), ("ADD HL,BC", 2, 8, Effect::AddToHl(Pair::BC)));
    assert_eq!(table_row(0x0B), ("DEC BC", 2, 8, Effect::DecrementPair(Pair::BC)));
    assert_eq!(table_row(0x10), ("STOP 0", 0, 0, Effect::Unimplemented));
    assert_eq!(table_row(0x17), ("RLA", 1, 4, Effect::RotateAccumulator(ShiftOp::Rl)));
    assert_eq!(table_row(0x18), ("JR r8", 3, 12, Effect::JumpRelative));
    assert_eq!(table_row(0x20), ("JR NZ,r8", 2, 8, Effect::JumpRelativeIf(Condition::NotZero)));
    assert_eq!(table_row(0x22), ("LD (HL+),A", 2, 8, Effect::StoreAccumulator(Pointer::HlIncrement)));
    assert_eq!(table_row(0x27), ("DAA", 1, 4, Effect::DecimalAdjust));
    assert_eq!(table_row(0x2F), ("CPL", 1, 4, Effect::Complement));
    assert_eq!(table_row(0x31), ("LD SP,d16", 3, 12, Effect::LoadPairImmediate(Pair::SP)));
    assert_eq!(table_row(0x34), ("INC (HL)", 3, 12, Effect::Increment(Target::HlIndirect)));
    assert_eq!(table_row(0x36), ("LD (HL),d8", 3, 12, Effect::LoadImmediate(Target::HlIndirect)));
    assert_eq!(table_row(0x37), ("SCF", 1, 4, Effect::SetCarry));
    assert_eq!(table_row(0x3A), ("LD A,(HL-)", 2, 8, Effect::LoadAccumulator(Pointer::HlDecrement)));
    assert_eq!(table_row(0x3C), ("INC A", 1, 4, Effect::Increment(Target::A)));
    assert_eq!(table_row(0x3E), ("LD A,d8", 2, 8, Effect::LoadImmediate(Target::A)));
    assert_eq!(table_row(0x3F), ("CCF", 1, 4, Effect::ComplementCarry));
}

#[test]
fn primary_entries_of_the_middle() {
    assert_eq!(table_row(0x40), ("LD B,B", 1, 4, Effect::Load(Target::B, Target::B)));
    assert_eq!(table_row(0x4F), ("LD C,A", 1, 4, Effect::Load(Target::C, Target::A)));
    assert_eq!(table_row(0x56), ("LD D,(HL)", 2, 8, Effect::Load(Target::D, Target::HlIndirect)));
    assert_eq!(table_row(0x70), ("LD (HL),B", 2, 8, Effect::Load(Target::HlIndirect, Target::B)));
    assert_eq!(table_row(0x76), ("HALT", 0, 0, Effect::Unimplemented));
    assert_eq!(table_row(0x7F), ("LD A,A", 1, 4, Effect::Load(Target::A, Target::A)));
    assert_eq!(table_row(0x80), ("ADD A,B", 1, 4, Effect::Alu(AluOp::Add, Target::B)));
    assert_eq!(table_row(0x8E), ("ADC A,(HL)", 2, 8, Effect::Alu(AluOp::Adc, Target::HlIndirect)));
    assert_eq!(table_row(0x90), ("SUB B", 1, 4, Effect::Alu(AluOp::Sub, Target::B)));
    assert_eq!(table_row(0x9F), ("SBC A,A", 1, 4, Effect::Alu(AluOp::Sbc, Target::A)));
    assert_eq!(table_row(0xA0), ("AND B", 1, 4, Effect::Alu(AluOp::And, Target::B)));
    assert_eq!(table_row(0xAF), ("XOR A", 1, 4, Effect::Alu(AluOp::Xor, Target::A)));
    assert_eq!(table_row(0xB6), ("OR (HL)", 2, 8, Effect::Alu(AluOp::Or, Target::HlIndirect)));
    assert_eq!(table_row(0xBF), ("CP A", 1, 4, Effect::Alu(AluOp::Cp, Target::A)));
}

#[test]
fn primary_entries_of_the_last_quarter() {
    assert_eq!(table_row(0xC0), ("RET NZ", 2, 8, Effect::ReturnIf(Condition::NotZero)));
    assert_eq!(table_row(0xC1), ("POP BC", 3, 12, Effect::Pop(StackPair::BC)));
    assert_eq!(table_row(0xC3), ("JP a16", 4, 16, Effect::Jump));
    assert_eq!(table_row(0xC4), ("CALL NZ,a16", 3, 12, Effect::CallIf(Condition::NotZero)));
    assert_eq!(table_row(0xC5), ("PUSH BC", 4, 16, Effect::Push(StackPair::BC)));
    assert_eq!(table_row(0xC6), ("ADD A,d8", 2, 8, Effect::AluImmediate(AluOp::Add)));
    assert_eq!(table_row(0xC7), ("RST 00H", 4, 16, Effect::Restart(0x00)));
    assert_eq!(table_row(0xC9), ("RET", 4, 16, Effect::Return));
    assert_eq!(table_row(0xCA), ("JP Z,a16", 3, 12, Effect::JumpIf(Condition::Zero)));
    assert_eq!(table_row(0xCB), ("PREFIX CB", 1, 4, Effect::Prefix));
    assert_eq!(table_row(0xCD), ("CALL a16", 6, 24, Effect::Call));
    assert_eq!(table_row(0xD8), ("RET C", 2, 8, Effect::ReturnIf(Condition::Carry)));
    assert_eq!(table_row(0xD9), ("RETI", 0, 0, Effect::Unimplemented));
    assert_eq!(table_row(0xE0), ("LDH (a8),A", 3, 12, Effect::StoreHighImmediate));
    assert_eq!(table_row(0xE2), ("LD (C),A", 2, 8, Effect::StoreHighC));
    assert_eq!(table_row(0xE8), ("ADD SP,r8", 4, 16, Effect::AddToStackPointer));
    assert_eq!(table_row(0xE9), ("JP (HL)", 1, 4, Effect::JumpToHl));
    assert_eq!(table_row(0xEA), ("LD (a16),A", 4, 16, Effect::StoreAbsolute));
    assert_eq!(table_row(0xEF), ("RST 28H", 4, 16, Effect::Restart(0x28)));
    assert_eq!(table_row(0xF0), ("LDH A,(a8)", 3, 12, Effect::LoadHighImmediate));
    assert_eq!(table_row(0xF1), ("POP AF", 3, 12, Effect::Pop(StackPair::AF)));
    assert_eq!(table_row(0xF2), ("LD A,(C)", 2, 8, Effect::LoadHighC));
    assert_eq!(table_row(0xF3), ("DI", 0, 0, Effect::Unimplemented));
    assert_eq!(table_row(0xF5), ("PUSH AF", 4, 16, Effect::Push(StackPair::AF)));
    assert_eq!(table_row(0xF8), ("LD HL,SP+r8", 3, 12, Effect::LoadHlFromStackOffset));
    assert_eq!(table_row(0xF9), ("LD SP,HL", 2, 8, Effect::LoadStackPointerFromHl));
    assert_eq!(table_row(0xFA), ("LD A,(a16)", 4, 16, Effect::LoadAbsolute));
    assert_eq!(table_row(0xFB), ("EI", 0, 0, Effect::Unimplemented));
    assert_eq!(table_row(0xFE), ("CP d8", 2, 8, Effect::AluImmediate(AluOp::Cp)));
    assert_eq!(table_row(0xFF), ("RST 38H", 4, 16, Effect::Restart(0x38)));
    assert_eq!(table_row(0xD3), ("Unimplemented", 0, 0, Effect::Unimplemented));
}

#[test]
fn secondary_entries() {
    assert_eq!(table_cb_row(0x00), ("RLC B", 1, 4, Effect::Shift(ShiftOp::Rlc, Target::B)));
    assert_eq!(table_cb_row(0x06), ("RLC (HL)", 3, 12, Effect::Shift(ShiftOp::Rlc, Target::HlIndirect)));
    assert_eq!(table_cb_row(0x11), ("RL C", 1, 4, Effect::Shift(ShiftOp::Rl, Target::C)));
    assert_eq!(table_cb_row(0x1F), ("RR A", 1, 4, Effect::Shift(ShiftOp::Rr, Target::A)));
    assert_eq!(table_cb_row(0x27), ("SLA A", 1, 4, Effect::Shift(ShiftOp::Sla, Target::A)));
    assert_eq!(table_cb_row(0x2E), ("SRA (HL)", 3, 12, Effect::Shift(ShiftOp::Sra, Target::HlIndirect)));
    assert_eq!(table_cb_row(0x37), ("SWAP A", 1, 4, Effect::Shift(ShiftOp::Swap, Target::A)));
    assert_eq!(table_cb_row(0x38), ("SRL B", 1, 4, Effect::Shift(ShiftOp::Srl, Target::B)));
    assert_eq!(table_cb_row(0x40), ("BIT 0,B", 1, 4, Effect::TestBit(0, Target::B)));
    assert_eq!(table_cb_row(0x46), ("BIT 0,(HL)", 2, 8, Effect::TestBit(0, Target::HlIndirect)));
    assert_eq!(table_cb_row(0x7C), ("BIT 7,H", 1, 4, Effect::TestBit(7, Target::H)));
    assert_eq!(table_cb_row(0x80), ("RES 0,B", 1, 4, Effect::ResetBit(0, Target::B)));
    assert_eq!(table_cb_row(0xBE), ("RES 7,(HL)", 3, 12, Effect::ResetBit(7, Target::HlIndirect)));
    assert_eq!(table_cb_row(0xC0), ("SET 0,B", 1, 4, Effect::SetBit(0, Target::B)));
    assert_eq!(table_cb_row(0xDE), ("SET 3,(HL)", 3, 12, Effect::SetBit(3, Target::HlIndirect)));
    assert_eq!(table_cb_row(0xFF), ("SET 7,A", 1, 4, Effect::SetBit(7, Target::A)));
}

#[test]
fn loads_between_operands_follow_the_bit_fields() {
    let targets = [
        Target::B,
        Target::C,
        Target::D,
        Target::E,
        Target::H,
        Target::L,
        Target::HlIndirect,
        Target::A,
    ];
    let table = instructions();
    for opcode in 0x40..=0x7Fu8 {
        if opcode == 0x76 {
            continue;
        }
        let destination = targets[((opcode >> 3) & 7) as usize];
        let source = targets[(opcode & 7) as usize];
        assert_eq!(table[opcode as usize].effect, Effect::Load(destination, source));
    }
}

#[test]
fn bit_instructions_follow_the_bit_fields() {
    let targets = [
        Target::B,
        Target::C,
        Target::D,
        Target::E,
        Target::H,
        Target::L,
        Target::HlIndirect,
        Target::A,
    ];
    let table = cb_instructions();
    for opcode in 0x40..=0xFFu8 {
        let bit = (opcode >> 3) & 7;
        let target = targets[(opcode & 7) as usize];
        let expected = match opcode >> 6 {
            1 => Effect::TestBit(bit, target),
            2 => Effect::ResetBit(bit, target),
            _ => Effect::SetBit(bit, target),
        };
        assert_eq!(table[opcode as usize].effect, expected);
    }
}

const TARGET_NAMES: [&str; 8] = ["B", "C", "D", "E", "H", "L", "(HL)", "A"];
const PAIR_NAMES: [&str; 4] = ["BC", "DE", "HL", "SP"];
const STACK_PAIR_NAMES: [&str; 4] = ["BC", "DE", "HL", "AF"];
const POINTER_NAMES: [&str; 4] = ["(BC)", "(DE)", "(HL+)", "(HL-)"];
const CONDITION_NAMES: [&str; 4] = ["NZ", "Z", "NC", "C"];
const ALU_NAMES: [&str; 8] = ["ADD A,", "ADC A,", "SUB ", "SBC A,", "AND ", "XOR ", "OR ", "CP "];
const SHIFT_NAMES: [&str; 8] = ["RLC", "RRC", "RL", "RR", "SLA", "SRA", "SWAP", "SRL"];

/// The name of a primary opcode, put together from its bit fields.
fn table_name(opcode: u8) -> String {
    let x = opcode >> 6;
    let y = ((opcode >> 3) & 7) as usize;
    let z = opcode & 7;
    let p = y >> 1;
    let even = y & 1 == 0;
    match (x, z) {
        (0, 0) => match y {
            0 => String::from("NOP"),
            1 => String::from("LD (a16),SP"),
            2 => String::from("STOP 0"),
            3 => String::from("JR r8"),
            _ => format!("JR {},r8", CONDITION_NAMES[y - 4]),
        },
        (0, 1) if even => format!("LD {},d16", PAIR_NAMES[p]),
        (0, 1) => format!("ADD HL,{}", PAIR_NAMES[p]),
        (0, 2) if even => format!("LD {},A", POINTER_NAMES[p]),
        (0, 2) => format!("LD A,{}", POINTER_NAMES[p]),
        (0, 3) if even => format!("INC {}", PAIR_NAMES[p]),
        (0, 3) => format!("DEC {}", PAIR_NAMES[p]),
        (0, 4) => format!("INC {}", TARGET_NAMES[y]),
        (0, 5) => format!("DEC {}", TARGET_NAMES[y]),
        (0, 6) => format!("LD {},d8", TARGET_NAMES[y]),
        (0, _) => String::from(["RLCA", "RRCA", "RLA", "RRA", "DAA", "CPL", "SCF", "CCF"][y]),
        (1, _) if opcode == 0x76 => String::from("HALT"),
        (1, _) => format!("LD {},{}", TARGET_NAMES[y], TARGET_NAMES[z as usize]),
        (2, _) => format!("{}{}", ALU_NAMES[y], TARGET_NAMES[z as usize]),
        (_, 0) if y < 4 => format!("RET {}", CONDITION_NAMES[y]),
        (_, 0) => String::from(["LDH (a8),A", "ADD SP,r8", "LDH A,(a8)", "LD HL,SP+r8"][y - 4]),
        (_, 1) if even => format!("POP {}", STACK_PAIR_NAMES[p]),
        (_, 1) => String::from(["RET", "RETI", "JP (HL)", "LD SP,HL"][p]),
        (_, 2) if y < 4 => format!("JP {},a16", CONDITION_NAMES[y]),
        (_, 2) => String::from(["LD (C),A", "LD (a16),A", "LD A,(C)", "LD A,(a16)"][y - 4]),
        (_, 3) => String::from(
            [
                "JP a16",
                "PREFIX CB",
                "Unimplemented",
                "Unimplemented",
                "Unimplemented",
                "Unimplemented",
                "DI",
                "EI",
            ][y],
        ),
        (_, 4) if y < 4 => format!("CALL {},a16", CONDITION_NAMES[y]),
        (_, 4) => String::from("Unimplemented"),
        (_, 5) if even => format!("PUSH {}", STACK_PAIR_NAMES[p]),
        (_, 5) if y == 1 => String::from("CALL a16"),
        (_, 5) => String::from("Unimplemented"),
        (_, 6) => format!("{}d8", ALU_NAMES[y]),
        _ => format!("RST {:02X}H", 8 * y),
    }
}

/// The name of a secondary opcode, put together from its bit fields.
fn table_cb_name(opcode: u8) -> String {
    let y = ((opcode >> 3) & 7) as usize;
    let target = TARGET_NAMES[(opcode & 7) as usize];
    match opcode >> 6 {
        0 => format!("{} {}", SHIFT_NAMES[y], target),
        1 => format!("BIT {},{}", y, target),
        2 => format!("RES {},{}", y, target),
        _ => format!("SET {},{}", y, target),
    }
}

#[test]
fn mnemonics_follow_the_bit_fields() {
    let primary = instructions();
    let secondary = cb_instructions();
    for opcode in 0..=255u8 {
        assert_eq!(primary[opcode as usize].mnemonic, table_name(opcode));
        assert_eq!(secondary[opcode as usize].mnemonic, table_cb_name(opcode));
    }
}

#[test]
fn costs_follow_the_bit_fields() {
    let primary = instructions();
    for opcode in 0x40..=0xBFu8 {
        if opcode == 0x76 {
            continue;
        }
        let reads = (opcode & 7 == 6) as u8;
        let writes = (opcode < 0x80 && (opcode >> 3) & 7 == 6) as u8;
        assert_eq!(primary[opcode as usize].time_increment.m, 1 + reads + writes);
    }
    let secondary = cb_instructions();
    for opcode in 0..=255u8 {
        let indirect = opcode & 7 == 6;
        let test = opcode >> 6 == 1;
        let expected = if !indirect { 1 } else if test { 2 } else { 3 };
        assert_eq!(secondary[opcode as usize].time_increment.m, expected);
    }
}
