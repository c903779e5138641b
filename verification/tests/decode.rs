use nes_core::cpu::mos6502::isa::AddressingMode::{
    self, Absolute, AbsoluteX, AbsoluteY, Accumulator, Immediate, Implied, Indirect, IndirectX,
    IndirectY, Relative, ZeroPage, ZeroPageX, ZeroPageY,
};
use nes_core::cpu::mos6502::isa::Opcode::{
    self, ADC, ALR, ANC, AND, ARR, ASL, AXS, BCC, BCS, BEQ, BIT, BMI, BNE, BPL, BRK, BVC, BVS, CLC,
    CLD, CLI, CLV, CMP, CPX, CPY, DCP, DEC, DEX, DEY, EOR, IGN, INC, INX, INY, ISC, JMP, JSR, LAX,
    LDA, LDX, LDY, LSR, NOP, ORA, PHA, PHP, PLA, PLP, RLA, ROL, ROR, RRA, RTI, RTS, SAX, SBC, SEC,
    SED, SEI, SKB, SLO, SRE, STA, STX, STY, TAX, TAY, TSX, TXA, TXS, TYA,
};
use nes_core::cpu::mos6502::isa::{Class, Instruction};

/// The whole opcode table, byte by byte.
fn expected_table() -> [Option<(AddressingMode, Opcode, u32)>; 256] {
    [
        Some((Implied, BRK, 7)),
        Some((IndirectX, ORA, 6)),
        None,
        Some((IndirectX, SLO, 8)),
        Some((ZeroPage, IGN, 3)),
        Some((ZeroPage, ORA, 3)),
        Some((ZeroPage, ASL, 5)),
        Some((ZeroPage, SLO, 5)),
        Some((Implied, PHP, 3)),
        Some((Immediate, ORA, 2)),
        Some((Accumulator, ASL, 2)),
        Some((Immediate, ANC, 2)),
        Some((Absolute, IGN, 4)),
        Some((Absolute, ORA, 4)),
        Some((Absolute, ASL, 6)),
        Some((Absolute, SLO, 6)),
        Some((Relative, BPL, 2)),
        Some((IndirectY, ORA, 5)),
        None,
        Some((IndirectY, SLO, 8)),
        Some((ZeroPageX, IGN, 4)),
        Some((ZeroPageX, ORA, 4)),
        Some((ZeroPageX, ASL, 6)),
        Some((ZeroPageX, SLO, 6)),
        Some((Implied, CLC, 2)),
        Some((AbsoluteY, ORA, 4)),
        Some((Implied, NOP, 2)),
        Some((AbsoluteY, SLO, 7)),
        Some((AbsoluteX, IGN, 4)),
        Some((AbsoluteX, ORA, 4)),
        Some((AbsoluteX, ASL, 7)),
        Some((AbsoluteX, SLO, 7)),
        Some((Absolute, JSR, 6)),
        Some((IndirectX, AND, 6)),
        None,
        Some((IndirectX, RLA, 8)),
        Some((ZeroPage, BIT, 3)),
        Some((ZeroPage, AND, 3)),
        Some((ZeroPage, ROL, 5)),
        Some((ZeroPage, RLA, 5)),
        Some((Implied, PLP, 4)),
        Some((Immediate, AND, 2)),
        Some((Accumulator, ROL, 2)),
        None,
        Some((Absolute, BIT, 4)),
        Some((Absolute, AND, 4)),
        Some((Absolute, ROL, 6)),
        Some((Absolute, RLA, 6)),
        Some((Relative, BMI, 2)),
        Some((IndirectY, AND, 5)),
        None,
        Some((IndirectY, RLA, 8)),
        Some((ZeroPageX, IGN, 4)),
        Some((ZeroPageX, AND, 4)),
        Some((ZeroPageX, ROL, 6)),
        Some((ZeroPageX, RLA, 6)),
        Some((Implied, SEC, 2)),
        Some((AbsoluteY, AND, 4)),
        Some((Implied, NOP, 2)),
        Some((AbsoluteY, RLA, 7)),
        Some((AbsoluteX, IGN, 4)),
        Some((AbsoluteX, AND, 4)),
        Some((AbsoluteX, ROL, 7)),
        Some((AbsoluteX, RLA, 7)),
        Some((Implied, RTI, 6)),
        Some((IndirectX, EOR, 6)),
        None,
        Some((IndirectX, SRE, 8)),
        Some((ZeroPage, IGN, 3)),
        Some((ZeroPage, EOR, 3)),
        Some((ZeroPage, LSR, 5)),
        Some((ZeroPage, SRE, 5)),
        Some((Implied, PHA, 3)),
        Some((Immediate, EOR, 2)),
        Some((Accumulator, LSR, 2)),
        Some((Immediate, ALR, 2)),
        Some((Absolute, JMP, 3)),
        Some((Absolute, EOR, 4)),
        Some((Absolute, LSR, 6)),
        Some((Absolute, SRE, 6)),
        Some((Relative, BVC, 2)),
        Some((IndirectY, EOR, 5)),
        None,
        Some((IndirectY, SRE, 8)),
        Some((ZeroPageX, IGN, 4)),
        Some((ZeroPageX, EOR, 4)),
        Some((ZeroPageX, LSR, 6)),
        Some((ZeroPageX, SRE, 6)),
        Some((Implied, CLI, 2)),
        Some((AbsoluteY, EOR, 4)),
        Some((Implied, NOP, 2)),
        Some((AbsoluteY, SRE, 7)),
        Some((AbsoluteX, IGN, 4)),
        Some((AbsoluteX, EOR, 4)),
        Some((AbsoluteX, LSR, 7)),
        Some((AbsoluteX, SRE, 7)),
        Some((Implied, RTS, 6)),
        Some((IndirectX, ADC, 6)),
        None,
        Some((IndirectX, RRA, 8)),
        Some((ZeroPage, IGN, 3)),
        Some((ZeroPage, ADC, 3)),
        Some((ZeroPage, ROR, 5)),
        Some((ZeroPage, RRA, 5)),
        Some((Implied, PLA, 4)),
        Some((Immediate, ADC, 2)),
        Some((Accumulator, ROR, 2)),
        Some((Immediate, ARR, 2)),
        Some((Indirect, JMP, 5)),
        Some((Absolute, ADC, 4)),
        Some((Absolute, ROR, 6)),
        Some((Absolute, RRA, 6)),
        Some((Relative, BVS, 2)),
        Some((IndirectY, ADC, 5)),
        None,
        Some((IndirectY, RRA, 8)),
        Some((ZeroPageX, IGN, 4)),
        Some((ZeroPageX, ADC, 4)),
        Some((ZeroPageX, ROR, 6)),
        Some((ZeroPageX, RRA, 6)),
        Some((Implied, SEI, 2)),
        Some((AbsoluteY, ADC, 4)),
        Some((Implied, NOP, 2)),
        Some((AbsoluteY, RRA, 7)),
        Some((AbsoluteX, IGN, 4)),
        Some((AbsoluteX, ADC, 4)),
        Some((AbsoluteX, ROR, 7)),
        Some((AbsoluteX, RRA, 7)),
        Some((Immediate, SKB, 2)),
        Some((IndirectX, STA, 6)),
        Some((Immediate, SKB, 2)),
        Some((IndirectX, SAX, 6)),
        Some((ZeroPage, STY, 3)),
        Some((ZeroPage, STA, 3)),
        Some((ZeroPage, STX, 3)),
        Some((ZeroPage, SAX, 3)),
        Some((Implied, DEY, 2)),
        Some((Immediate, SKB, 2)),
        Some((Implied, TXA, 2)),
        None,
        Some((Absolute, STY, 4)),
        Some((Absolute, STA, 4)),
        Some((Absolute, STX, 4)),
        Some((Absolute, SAX, 4)),
        Some((Relative, BCC, 2)),
        Some((IndirectY, STA, 6)),
        None,
        None,
        Some((ZeroPageX, STY, 4)),
        Some((ZeroPageX, STA, 4)),
        Some((ZeroPageY, STX, 4)),
        Some((ZeroPageY, SAX, 4)),
        Some((Implied, TYA, 2)),
        Some((AbsoluteY, STA, 5)),
        Some((Implied, TXS, 2)),
        None,
        None,
        Some((AbsoluteX, STA, 5)),
        None,
        None,
        Some((Immediate, LDY, 2)),
        Some((IndirectX, LDA, 6)),
        Some((Immediate, LDX, 2)),
        Some((IndirectX, LAX, 6)),
        Some((ZeroPage, LDY, 3)),
        Some((ZeroPage, LDA, 3)),
        Some((ZeroPage, LDX, 3)),
        Some((ZeroPage, LAX, 3)),
        Some((Implied, TAY, 2)),
        Some((Immediate, LDA, 2)),
        Some((Implied, TAX, 2)),
        None,
        Some((Absolute, LDY, 4)),
        Some((Absolute, LDA, 4)),
        Some((Absolute, LDX, 4)),
        Some((Absolute, LAX, 4)),
        Some((Relative, BCS, 2)),
        Some((IndirectY, LDA, 5)),
        None,
        Some((IndirectY, LAX, 5)),
        Some((ZeroPageX, LDY, 4)),
        Some((ZeroPageX, LDA, 4)),
        Some((ZeroPageY, LDX, 4)),
        Some((ZeroPageY, LAX, 4)),
        Some((Implied, CLV, 2)),
        Some((AbsoluteY, LDA, 4)),
        Some((Implied, TSX, 2)),
        None,
        Some((AbsoluteX, LDY, 4)),
        Some((AbsoluteX, LDA, 4)),
        Some((AbsoluteY, LDX, 4)),
        Some((AbsoluteY, LAX, 4)),
        Some((Immediate, CPY, 2)),
        Some((IndirectX, CMP, 6)),
        Some((Immediate, SKB, 2)),
        Some((IndirectX, DCP, 8)),
        Some((ZeroPage, CPY, 3)),
        Some((ZeroPage, CMP, 3)),
        Some((ZeroPage, DEC, 5)),
        Some((ZeroPage, DCP, 5)),
        Some((Implied, INY, 2)),
        Some((Immediate, CMP, 2)),
        Some((Implied, DEX, 2)),
        Some((Immediate, AXS, 2)),
        Some((Absolute, CPY, 4)),
        Some((Absolute, CMP, 4)),
        Some((Absolute, DEC, 6)),
        Some((Absolute, DCP, 6)),
        Some((Relative, BNE, 2)),
        Some((IndirectY, CMP, 5)),
        None,
        Some((IndirectY, DCP, 8)),
        Some((ZeroPageX, IGN, 4)),
        Some((ZeroPageX, CMP, 4)),
        Some((ZeroPageX, DEC, 6)),
        Some((ZeroPageX, DCP, 6)),
        Some((Implied, CLD, 2)),
        Some((AbsoluteY, CMP, 4)),
        Some((Implied, NOP, 2)),
        Some((AbsoluteY, DCP, 7)),
        Some((AbsoluteX, IGN, 4)),
        Some((AbsoluteX, CMP, 4)),
        Some((AbsoluteX, DEC, 7)),
        Some((AbsoluteX, DCP, 7)),
        Some((Immediate, CPX, 2)),
        Some((IndirectX, SBC, 6)),
        Some((Immediate, SKB, 2)),
        Some((IndirectX, ISC, 8)),
        Some((ZeroPage, CPX, 3)),
        Some((ZeroPage, SBC, 3)),
        Some((ZeroPage, INC, 5)),
        Some((ZeroPage, ISC, 5)),
        Some((Implied, INX, 2)),
        Some((Immediate, SBC, 2)),
        Some((Implied, NOP, 2)),
        None,
        Some((Absolute, CPX, 4)),
        Some((Absolute, SBC, 4)),
        Some((Absolute, INC, 6)),
        Some((Absolute, ISC, 6)),
        Some((Relative, BEQ, 2)),
        Some((IndirectY, SBC, 5)),
        None,
        Some((IndirectY, ISC, 8)),
        Some((ZeroPageX, IGN, 4)),
        Some((ZeroPageX, SBC, 4)),
        Some((ZeroPageX, INC, 6)),
        Some((ZeroPageX, ISC, 6)),
        Some((Implied, SED, 2)),
        Some((AbsoluteY, SBC, 4)),
        Some((Implied, NOP, 2)),
        Some((AbsoluteY, ISC, 7)),
        Some((AbsoluteX, IGN, 4)),
        Some((AbsoluteX, SBC, 4)),
        Some((AbsoluteX, INC, 7)),
        Some((AbsoluteX, ISC, 7)),
    ]
}

#[test]
fn decode_matches_the_table_for_every_byte() {
    let table = expected_table();
    for op in 0..=255u8 {
        let decoded = Instruction::decode(op);
        match table[op as usize] {
            Some((mode, opcode, cycles)) => {
                assert_eq!(decoded, Some(Instruction { mode, opcode, cycles }), "opcode {:#04x}", op)
            }
            None => assert_eq!(decoded, None, "opcode {:#04x}", op),
        }
    }
}

#[test]
fn decode_knows_234_opcodes() {
    let known = (0..=255u8).filter(|op| Instruction::decode(*op).is_some()).count();
    assert_eq!(known, 234);
}

#[test]
fn decode_refuses_the_bytes_outside_the_table() {
    let unknown: [u8; 22] = [0x02, 0x12, 0x22, 0x2b, 0x32, 0x42, 0x52, 0x62, 0x72, 0x8b, 0x92, 0x93, 0x9b, 0x9c, 0x9e, 0x9f, 0xab, 0xb2, 0xbb, 0xd2, 0xeb, 0xf2];
    for op in unknown {
        assert_eq!(Instruction::decode(op), None, "opcode {:#04x}", op);
    }
}

#[test]
fn decode_gives_documented_instructions() {
    assert_eq!(
        Instruction::decode(0x00),
        Some(Instruction { mode: Implied, opcode: BRK, cycles: 7 })
    );
    assert_eq!(
        Instruction::decode(0x69),
        Some(Instruction { mode: Immediate, opcode: ADC, cycles: 2 })
    );
    assert_eq!(
        Instruction::decode(0xea),
        Some(Instruction { mode: Implied, opcode: NOP, cycles: 2 })
    );
    assert_eq!(
        Instruction::decode(0x1e),
        Some(Instruction { mode: AbsoluteX, opcode: ASL, cycles: 7 })
    );
    assert_eq!(
        Instruction::decode(0x6c),
        Some(Instruction { mode: Indirect, opcode: JMP, cycles: 5 })
    );
    assert_eq!(
        Instruction::decode(0x0a),
        Some(Instruction { mode: Accumulator, opcode: ASL, cycles: 2 })
    );
    assert_eq!(
        Instruction::decode(0xb6),
        Some(Instruction { mode: ZeroPageY, opcode: LDX, cycles: 4 })
    );
}

#[test]
fn decode_gives_undocumented_instructions() {
    assert_eq!(
        Instruction::decode(0xc7),
        Some(Instruction { mode: ZeroPage, opcode: DCP, cycles: 5 })
    );
    assert_eq!(
        Instruction::decode(0x03),
        Some(Instruction { mode: IndirectX, opcode: SLO, cycles: 8 })
    );
    assert_eq!(
        Instruction::decode(0xf3),
        Some(Instruction { mode: IndirectY, opcode: ISC, cycles: 8 })
    );
    assert_eq!(
        Instruction::decode(0x80),
        Some(Instruction { mode: Immediate, opcode: SKB, cycles: 2 })
    );
    assert_eq!(
        Instruction::decode(0xfc),
        Some(Instruction { mode: AbsoluteX, opcode: IGN, cycles: 4 })
    );
    assert_eq!(
        Instruction::decode(0x1a),
        Some(Instruction { mode: Implied, opcode: NOP, cycles: 2 })
    );
}

#[test]
fn every_branch_is_relative_with_two_cycles() {
    for op in [0x90u8, 0xb0, 0xf0, 0x30, 0xd0, 0x10, 0x50, 0x70] {
        let instr = Instruction::decode(op).unwrap();
        assert_eq!(instr.mode, Relative);
        assert_eq!(instr.cycles, 2);
        assert_eq!(instr.opcode.classify(), Class::Branch);
    }
}

#[test]
fn base_cycles_lie_between_two_and_eight() {
    for op in 0..=255u8 {
        if let Some(instr) = Instruction::decode(op) {
            assert!(2 <= instr.cycles && instr.cycles <= 8, "opcode {:#04x}", op);
        }
    }
}

#[test]
fn classes_of_operations() {
    assert_eq!(LDA.classify(), Class::Read);
    assert_eq!(CMP.classify(), Class::Read);
    assert_eq!(IGN.classify(), Class::Read);
    assert_eq!(STA.classify(), Class::Store);
    assert_eq!(SAX.classify(), Class::Store);
    assert_eq!(INC.classify(), Class::Modify);
    assert_eq!(RRA.classify(), Class::Modify);
    assert_eq!(TAX.classify(), Class::Register);
    assert_eq!(NOP.classify(), Class::Register);
    assert_eq!(BNE.classify(), Class::Branch);
    assert_eq!(JSR.classify(), Class::Flow);
    assert_eq!(PHP.classify(), Class::Flow);
}

#[test]
fn modes_with_an_operand_in_memory() {
    for mode in [Absolute, ZeroPage, ZeroPageX, ZeroPageY, AbsoluteX, AbsoluteY, IndirectX, IndirectY]
    {
        assert!(mode.is_in_memory());
    }
    for mode in [Accumulator, Immediate, Implied, Relative, Indirect] {
        assert!(!mode.is_in_memory());
    }
}

#[test]
fn read_modify_write_through_a_pointer_takes_eight_cycles() {
    for op in [0xc3u8, 0xd3, 0xe3, 0xf3, 0x23, 0x33, 0x63, 0x73, 0x03, 0x13, 0x43, 0x53] {
        let instr = Instruction::decode(op).unwrap();
        assert_eq!(instr.opcode.classify(), Class::Modify, "opcode {:#04x}", op);
        assert!(instr.mode == IndirectX || instr.mode == IndirectY, "opcode {:#04x}", op);
        assert_eq!(instr.cycles, 8, "opcode {:#04x}", op);
    }
}

#[test]
fn base_cycles_follow_class_and_mode() {
    for op in 0..=255u8 {
        let Some(instr) = Instruction::decode(op) else { continue };
        let expected = match (instr.opcode.classify(), instr.mode) {
            (Class::Read, ZeroPage) => 3,
            (Class::Read, ZeroPageX | ZeroPageY | Absolute | AbsoluteX | AbsoluteY) => 4,
            (Class::Read, IndirectY) => 5,
            (Class::Read, IndirectX) => 6,
            (Class::Read, _) => 2,
            (Class::Store, ZeroPage) => 3,
            (Class::Store, ZeroPageX | ZeroPageY | Absolute) => 4,
            (Class::Store, AbsoluteX | AbsoluteY) => 5,
            (Class::Store, _) => 6,
            (Class::Modify, Accumulator) => 2,
            (Class::Modify, ZeroPage) => 5,
            (Class::Modify, ZeroPageX | Absolute) => 6,
            (Class::Modify, AbsoluteX | AbsoluteY) => 7,
            (Class::Modify, _) => 8,
            (Class::Register | Class::Branch, _) => 2,
            (Class::Flow, _) => match instr.opcode {
                JMP if instr.mode == Indirect => 5,
                JMP | PHA | PHP => 3,
                PLA | PLP => 4,
                BRK => 7,
                _ => 6,
            },
        };
        assert_eq!(instr.cycles, expected, "opcode {:#04x}", op);
    }
}
