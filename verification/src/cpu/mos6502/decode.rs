//! The opcode table: which addressing mode, operation and base cycle count
//! each opcode byte stands for.

use super::isa::AddressingMode::{
    Absolute, AbsoluteX, AbsoluteY, Accumulator, Immediate, Implied, Indirect, IndirectX,
    IndirectY, Relative, ZeroPage, ZeroPageX, ZeroPageY,
};
use super::isa::{AddressingMode, Class, Instruction, Opcode};
use super::isa::Opcode::{
    ADC, ALR, ANC, AND, ARR, ASL, AXS, BCC, BCS, BEQ, BIT, BMI, BNE, BPL, BRK, BVC, BVS, CLC,
    CLD, CLI, CLV, CMP, CPX, CPY, DCP, DEC, DEX, DEY, EOR, IGN, INC, INX, INY, ISC, JMP, JSR,
    LAX, LDA, LDX, LDY, LSR, NOP, ORA, PHA, PHP, PLA, PLP, RLA, ROL, ROR, RRA, RTI, RTS, SAX,
    SBC, SEC, SED, SEI, SKB, SLO, SRE, STA, STX, STY, TAX, TAY, TSX, TXA, TXS, TYA,
};
use vstd::prelude::*;

verus! {

impl Instruction {
    /// The opcode table as a mathematical function. `None` marks a byte that
    /// stands for no instruction.
    pub open spec fn lookup(op: u8) -> Option<Instruction> {
        match op {
            0x69 => Some(Instruction { mode: Immediate, opcode: ADC, cycles: 2 }),
            0x65 => Some(Instruction { mode: ZeroPage, opcode: ADC, cycles: 3 }),
            0x75 => Some(Instruction { mode: ZeroPageX, opcode: ADC, cycles: 4 }),
            0x6d => Some(Instruction { mode: Absolute, opcode: ADC, cycles: 4 }),
            0x7d => Some(Instruction { mode: AbsoluteX, opcode: ADC, cycles: 4 }),
            0x79 => Some(Instruction { mode: AbsoluteY, opcode: ADC, cycles: 4 }),
            0x61 => Some(Instruction { mode: IndirectX, opcode: ADC, cycles: 6 }),
            0x71 => Some(Instruction { mode: IndirectY, opcode: ADC, cycles: 5 }),

            0x29 => Some(Instruction { mode: Immediate, opcode: AND, cycles: 2 }),
            0x25 => Some(Instruction { mode: ZeroPage, opcode: AND, cycles: 3 }),
            0x35 => Some(Instruction { mode: ZeroPageX, opcode: AND, cycles: 4 }),
            0x2d => Some(Instruction { mode: Absolute, opcode: AND, cycles: 4 }),
            0x3d => Some(Instruction { mode: AbsoluteX, opcode: AND, cycles: 4 }),
            0x39 => Some(Instruction { mode: AbsoluteY, opcode: AND, cycles: 4 }),
            0x21 => Some(Instruction { mode: IndirectX, opcode: AND, cycles: 6 }),
            0x31 => Some(Instruction { mode: IndirectY, opcode: AND, cycles: 5 }),

            0x0a => Some(Instruction { mode: Accumulator, opcode: ASL, cycles: 2 }),
            0x06 => Some(Instruction { mode: ZeroPage, opcode: ASL, cycles: 5 }),
            0x16 => Some(Instruction { mode: ZeroPageX, opcode: ASL, cycles: 6 }),
            0x0e => Some(Instruction { mode: Absolute, opcode: ASL, cycles: 6 }),
            0x1e => Some(Instruction { mode: AbsoluteX, opcode: ASL, cycles: 7 }),

            0x24 => Some(Instruction { mode: ZeroPage, opcode: BIT, cycles: 3 }),
            0x2c => Some(Instruction { mode: Absolute, opcode: BIT, cycles: 4 }),

            0x00 => Some(Instruction { mode: Implied, opcode: BRK, cycles: 7 }),

            0x90 => Some(Instruction { mode: Relative, opcode: BCC, cycles: 2 }),
            0xb0 => Some(Instruction { mode: Relative, opcode: BCS, cycles: 2 }),
            0xf0 => Some(Instruction { mode: Relative, opcode: BEQ, cycles: 2 }),
            0x30 => Some(Instruction { mode: Relative, opcode: BMI, cycles: 2 }),
            0xd0 => Some(Instruction { mode: Relative, opcode: BNE, cycles: 2 }),
            0x10 => Some(Instruction { mode: Relative, opcode: BPL, cycles: 2 }),
            0x50 => Some(Instruction { mode: Relative, opcode: BVC, cycles: 2 }),
            0x70 => Some(Instruction { mode: Relative, opcode: BVS, cycles: 2 }),

            0x18 => Some(Instruction { mode: Implied, opcode: CLC, cycles: 2 }),
            0xd8 => Some(Instruction { mode: Implied, opcode: CLD, cycles: 2 }),
            0x58 => Some(Instruction { mode: Implied, opcode: CLI, cycles: 2 }),
            0xb8 => Some(Instruction { mode: Implied, opcode: CLV, cycles: 2 }),

            0xc9 => Some(Instruction { mode: Immediate, opcode: CMP, cycles: 2 }),
            0xc5 => Some(Instruction { mode: ZeroPage, opcode: CMP, cycles: 3 }),
            0xd5 => Some(Instruction { mode: ZeroPageX, opcode: CMP, cycles: 4 }),
            0xcd => Some(Instruction { mode: Absolute, opcode: CMP, cycles: 4 }),
            0xdd => Some(Instruction { mode: AbsoluteX, opcode: CMP, cycles: 4 }),
            0xd9 => Some(Instruction { mode: AbsoluteY, opcode: CMP, cycles: 4 }),
            0xc1 => Some(Instruction { mode: IndirectX, opcode: CMP, cycles: 6 }),
            0xd1 => Some(Instruction { mode: IndirectY, opcode: CMP, cycles: 5 }),

            0xe0 => Some(Instruction { mode: Immediate, opcode: CPX, cycles: 2 }),
            0xe4 => Some(Instruction { mode: ZeroPage, opcode: CPX, cycles: 3 }),
            0xec => Some(Instruction { mode: Absolute, opcode: CPX, cycles: 4 }),

            0xc0 => Some(Instruction { mode: Immediate, opcode: CPY, cycles: 2 }),
            0xc4 => Some(Instruction { mode: ZeroPage, opcode: CPY, cycles: 3 }),
            0xcc => Some(Instruction { mode: Absolute, opcode: CPY, cycles: 4 }),

            0xc6 => Some(Instruction { mode: ZeroPage, opcode: DEC, cycles: 5 }),
            0xd6 => Some(Instruction { mode: ZeroPageX, opcode: DEC, cycles: 6 }),
            0xce => Some(Instruction { mode: Absolute, opcode: DEC, cycles: 6 }),
            0xde => Some(Instruction { mode: AbsoluteX, opcode: DEC, cycles: 7 }),

            0xca => Some(Instruction { mode: Implied, opcode: DEX, cycles: 2 }),
            0x88 => Some(Instruction { mode: Implied, opcode: DEY, cycles: 2 }),

            0x49 => Some(Instruction { mode: Immediate, opcode: EOR, cycles: 2 }),
            0x45 => Some(Instruction { mode: ZeroPage, opcode: EOR, cycles: 3 }),
            0x55 => Some(Instruction { mode: ZeroPageX, opcode: EOR, cycles: 4 }),
            0x4d => Some(Instruction { mode: Absolute, opcode: EOR, cycles: 4 }),
            0x5d => Some(Instruction { mode: AbsoluteX, opcode: EOR, cycles: 4 }),
            0x59 => Some(Instruction { mode: AbsoluteY, opcode: EOR, cycles: 4 }),
            0x41 => Some(Instruction { mode: IndirectX, opcode: EOR, cycles: 6 }),
            0x51 => Some(Instruction { mode: IndirectY, opcode: EOR, cycles: 5 }),

            0xe6 => Some(Instruction { mode: ZeroPage, opcode: INC, cycles: 5 }),
            0xf6 => Some(Instruction { mode: ZeroPageX, opcode: INC, cycles: 6 }),
            0xee => Some(Instruction { mode: Absolute, opcode: INC, cycles: 6 }),
            0xfe => Some(Instruction { mode: AbsoluteX, opcode: INC, cycles: 7 }),

            0xe8 => Some(Instruction { mode: Implied, opcode: INX, cycles: 2 }),
            0xc8 => Some(Instruction { mode: Implied, opcode: INY, cycles: 2 }),

            0x4c => Some(Instruction { mode: Absolute, opcode: JMP, cycles: 3 }),
            0x6c => Some(Instruction { mode: Indirect, opcode: JMP, cycles: 5 }),
            0x20 => Some(Instruction { mode: Absolute, opcode: JSR, cycles: 6 }),

            0xa9 => Some(Instruction { mode: Immediate, opcode: LDA, cycles: 2 }),
            0xa5 => Some(Instruction { mode: ZeroPage, opcode: LDA, cycles: 3 }),
            0xb5 => Some(Instruction { mode: ZeroPageX, opcode: LDA, cycles: 4 }),
            0xad => Some(Instruction { mode: Absolute, opcode: LDA, cycles: 4 }),
            0xbd => Some(Instruction { mode: AbsoluteX, opcode: LDA, cycles: 4 }),
            0xb9 => Some(Instruction { mode: AbsoluteY, opcode: LDA, cycles: 4 }),
            0xa1 => Some(Instruction { mode: IndirectX, opcode: LDA, cycles: 6 }),
            0xb1 => Some(Instruction { mode: IndirectY, opcode: LDA, cycles: 5 }),

            0xa2 => Some(Instruction { mode: Immediate, opcode: LDX, cycles: 2 }),
            0xa6 => Some(Instruction { mode: ZeroPage, opcode: LDX, cycles: 3 }),
            0xb6 => Some(Instruction { mode: ZeroPageY, opcode: LDX, cycles: 4 }),
            0xae => Some(Instruction { mode: Absolute, opcode: LDX, cycles: 4 }),
            0xbe => Some(Instruction { mode: AbsoluteY, opcode: LDX, cycles: 4 }),

            0xa0 => Some(Instruction { mode: Immediate, opcode: LDY, cycles: 2 }),
            0xa4 => Some(Instruction { mode: ZeroPage, opcode: LDY, cycles: 3 }),
            0xb4 => Some(Instruction { mode: ZeroPageX, opcode: LDY, cycles: 4 }),
            0xac => Some(Instruction { mode: Absolute, opcode: LDY, cycles: 4 }),
            0xbc => Some(Instruction { mode: AbsoluteX, opcode: LDY, cycles: 4 }),

            0x4a => Some(Instruction { mode: Accumulator, opcode: LSR, cycles: 2 }),
            0x46 => Some(Instruction { mode: ZeroPage, opcode: LSR, cycles: 5 }),
            0x56 => Some(Instruction { mode: ZeroPageX, opcode: LSR, cycles: 6 }),
            0x4e => Some(Instruction { mode: Absolute, opcode: LSR, cycles: 6 }),
            0x5e => Some(Instruction { mode: AbsoluteX, opcode: LSR, cycles: 7 }),

            0xea => Some(Instruction { mode: Implied, opcode: NOP, cycles: 2 }),

            0x09 => Some(Instruction { mode: Immediate, opcode: ORA, cycles: 2 }),
            0x05 => Some(Instruction { mode: ZeroPage, opcode: ORA, cycles: 3 }),
            0x15 => Some(Instruction { mode: ZeroPageX, opcode: ORA, cycles: 4 }),
            0x0d => Some(Instruction { mode: Absolute, opcode: ORA, cycles: 4 }),
            0x1d => Some(Instruction { mode: AbsoluteX, opcode: ORA, cycles: 4 }),
            0x19 => Some(Instruction { mode: AbsoluteY, opcode: ORA, cycles: 4 }),
            0x01 => Some(Instruction { mode: IndirectX, opcode: ORA, cycles: 6 }),
            0x11 => Some(Instruction { mode: IndirectY, opcode: ORA, cycles: 5 }),

            0x48 => Some(Instruction { mode: Implied, opcode: PHA, cycles: 3 }),
            0x08 => Some(Instruction { mode: Implied, opcode: PHP, cycles: 3 }),
            0x68 => Some(Instruction { mode: Implied, opcode: PLA, cycles: 4 }),
            0x28 => Some(Instruction { mode: Implied, opcode: PLP, cycles: 4 }),

            0x2a => Some(Instruction { mode: Accumulator, opcode: ROL, cycles: 2 }),
            0x26 => Some(Instruction { mode: ZeroPage, opcode: ROL, cycles: 5 }),
            0x36 => Some(Instruction { mode: ZeroPageX, opcode: ROL, cycles: 6 }),
            0x2e => Some(Instruction { mode: Absolute, opcode: ROL, cycles: 6 }),
            0x3e => Some(Instruction { mode: AbsoluteX, opcode: ROL, cycles: 7 }),

            0x6a => Some(Instruction { mode: Accumulator, opcode: ROR, cycles: 2 }),
            0x66 => Some(Instruction { mode: ZeroPage, opcode: ROR, cycles: 5 }),
            0x76 => Some(Instruction { mode: ZeroPageX, opcode: ROR, cycles: 6 }),
            0x6e => Some(Instruction { mode: Absolute, opcode: ROR, cycles: 6 }),
            0x7e => Some(Instruction { mode: AbsoluteX, opcode: ROR, cycles: 7 }),

            0x40 => Some(Instruction { mode: Implied, opcode: RTI, cycles: 6 }),
            0x60 => Some(Instruction { mode: Implied, opcode: RTS, cycles: 6 }),

            0xe9 => Some(Instruction { mode: Immediate, opcode: SBC, cycles: 2 }),
            0xe5 => Some(Instruction { mode: ZeroPage, opcode: SBC, cycles: 3 }),
            0xf5 => Some(Instruction { mode: ZeroPageX, opcode: SBC, cycles: 4 }),
            0xed => Some(Instruction { mode: Absolute, opcode: SBC, cycles: 4 }),
            0xfd => Some(Instruction { mode: AbsoluteX, opcode: SBC, cycles: 4 }),
            0xf9 => Some(Instruction { mode: AbsoluteY, opcode: SBC, cycles: 4 }),
            0xe1 => Some(Instruction { mode: IndirectX, opcode: SBC, cycles: 6 }),
            0xf1 => Some(Instruction { mode: IndirectY, opcode: SBC, cycles: 5 }),

            0x38 => Some(Instruction { mode: Implied, opcode: SEC, cycles: 2 }),
            0xf8 => Some(Instruction { mode: Implied, opcode: SED, cycles: 2 }),
            0x78 => Some(Instruction { mode: Implied, opcode: SEI, cycles: 2 }),

            0x85 => Some(Instruction { mode: ZeroPage, opcode: STA, cycles: 3 }),
            0x95 => Some(Instruction { mode: ZeroPageX, opcode: STA, cycles: 4 }),
            0x8d => Some(Instruction { mode: Absolute, opcode: STA, cycles: 4 }),
            0x9d => Some(Instruction { mode: AbsoluteX, opcode: STA, cycles: 5 }),
            0x99 => Some(Instruction { mode: AbsoluteY, opcode: STA, cycles: 5 }),
            0x81 => Some(Instruction { mode: IndirectX, opcode: STA, cycles: 6 }),
            0x91 => Some(Instruction { mode: IndirectY, opcode: STA, cycles: 6 }),

            0x86 => Some(Instruction { mode: ZeroPage, opcode: STX, cycles: 3 }),
            0x96 => Some(Instruction { mode: ZeroPageY, opcode: STX, cycles: 4 }),
            0x8e => Some(Instruction { mode: Absolute, opcode: STX, cycles: 4 }),

            0x84 => Some(Instruction { mode: ZeroPage, opcode: STY, cycles: 3 }),
            0x94 => Some(Instruction { mode: ZeroPageX, opcode: STY, cycles: 4 }),
            0x8c => Some(Instruction { mode: Absolute, opcode: STY, cycles: 4 }),

            0xaa => Some(Instruction { mode: Implied, opcode: TAX, cycles: 2 }),
            0xa8 => Some(Instruction { mode: Implied, opcode: TAY, cycles: 2 }),
            0xba => Some(Instruction { mode: Implied, opcode: TSX, cycles: 2 }),
            0x8a => Some(Instruction { mode: Implied, opcode: TXA, cycles: 2 }),
            0x9a => Some(Instruction { mode: Implied, opcode: TXS, cycles: 2 }),
            0x98 => Some(Instruction { mode: Implied, opcode: TYA, cycles: 2 }),

            0x4b => Some(Instruction { mode: Immediate, opcode: ALR, cycles: 2 }),
            0x0b => Some(Instruction { mode: Immediate, opcode: ANC, cycles: 2 }),
            0x6b => Some(Instruction { mode: Immediate, opcode: ARR, cycles: 2 }),

            0xc7 => Some(Instruction { mode: ZeroPage, opcode: DCP, cycles: 5 }),
            0xd7 => Some(Instruction { mode: ZeroPageX, opcode: DCP, cycles: 6 }),
            0xcf => Some(Instruction { mode: Absolute, opcode: DCP, cycles: 6 }),
            0xdf => Some(Instruction { mode: AbsoluteX, opcode: DCP, cycles: 7 }),
            0xdb => Some(Instruction { mode: AbsoluteY, opcode: DCP, cycles: 7 }),
            0xc3 => Some(Instruction { mode: IndirectX, opcode: DCP, cycles: 8 }),
            0xd3 => Some(Instruction { mode: IndirectY, opcode: DCP, cycles: 8 }),

            0xe7 => Some(Instruction { mode: ZeroPage, opcode: ISC, cycles: 5 }),
            0xf7 => Some(Instruction { mode: ZeroPageX, opcode: ISC, cycles: 6 }),
            0xef => Some(Instruction { mode: Absolute, opcode: ISC, cycles: 6 }),
            0xff => Some(Instruction { mode: AbsoluteX, opcode: ISC, cycles: 7 }),
            0xfb => Some(Instruction { mode: AbsoluteY, opcode: ISC, cycles: 7 }),
            0xe3 => Some(Instruction { mode: IndirectX, opcode: ISC, cycles: 8 }),
            0xf3 => Some(Instruction { mode: IndirectY, opcode: ISC, cycles: 8 }),

            0xa7 => Some(Instruction { mode: ZeroPage, opcode: LAX, cycles: 3 }),
            0xb7 => Some(Instruction { mode: ZeroPageY, opcode: LAX, cycles: 4 }),
            0xaf => Some(Instruction { mode: Absolute, opcode: LAX, cycles: 4 }),
            0xbf => Some(Instruction { mode: AbsoluteY, opcode: LAX, cycles: 4 }),
            0xa3 => Some(Instruction { mode: IndirectX, opcode: LAX, cycles: 6 }),
            0xb3 => Some(Instruction { mode: IndirectY, opcode: LAX, cycles: 5 }),

            0x27 => Some(Instruction { mode: ZeroPage, opcode: RLA, cycles: 5 }),
            0x37 => Some(Instruction { mode: ZeroPageX, opcode: RLA, cycles: 6 }),
            0x2f => Some(Instruction { mode: Absolute, opcode: RLA, cycles: 6 }),
            0x3f => Some(Instruction { mode: AbsoluteX, opcode: RLA, cycles: 7 }),
            0x3b => Some(Instruction { mode: AbsoluteY, opcode: RLA, cycles: 7 }),
            0x23 => Some(Instruction { mode: IndirectX, opcode: RLA, cycles: 8 }),
            0x33 => Some(Instruction { mode: IndirectY, opcode: RLA, cycles: 8 }),

            0x67 => Some(Instruction { mode: ZeroPage, opcode: RRA, cycles: 5 }),
            0x77 => Some(Instruction { mode: ZeroPageX, opcode: RRA, cycles: 6 }),
            0x6f => Some(Instruction { mode: Absolute, opcode: RRA, cycles: 6 }),
            0x7f => Some(Instruction { mode: AbsoluteX, opcode: RRA, cycles: 7 }),
            0x7b => Some(Instruction { mode: AbsoluteY, opcode: RRA, cycles: 7 }),
            0x63 => Some(Instruction { mode: IndirectX, opcode: RRA, cycles: 8 }),
            0x73 => Some(Instruction { mode: IndirectY, opcode: RRA, cycles: 8 }),

            0x87 => Some(Instruction { mode: ZeroPage, opcode: SAX, cycles: 3 }),
            0x97 => Some(Instruction { mode: ZeroPageY, opcode: SAX, cycles: 4 }),
            0x8f => Some(Instruction { mode: Absolute, opcode: SAX, cycles: 4 }),
            0x83 => Some(Instruction { mode: IndirectX, opcode: SAX, cycles: 6 }),

            0xcb => Some(Instruction { mode: Immediate, opcode: AXS, cycles: 2 }),

            0x07 => Some(Instruction { mode: ZeroPage, opcode: SLO, cycles: 5 }),
            0x17 => Some(Instruction { mode: ZeroPageX, opcode: SLO, cycles: 6 }),
            0x0f => Some(Instruction { mode: Absolute, opcode: SLO, cycles: 6 }),
            0x1f => Some(Instruction { mode: AbsoluteX, opcode: SLO, cycles: 7 }),
            0x1b => Some(Instruction { mode: AbsoluteY, opcode: SLO, cycles: 7 }),
            0x03 => Some(Instruction { mode: IndirectX, opcode: SLO, cycles: 8 }),
            0x13 => Some(Instruction { mode: IndirectY, opcode: SLO, cycles: 8 }),

            0x47 => Some(Instruction { mode: ZeroPage, opcode: SRE, cycles: 5 }),
            0x57 => Some(Instruction { mode: ZeroPageX, opcode: SRE, cycles: 6 }),
            0x4f => Some(Instruction { mode: Absolute, opcode: SRE, cycles: 6 }),
            0x5f => Some(Instruction { mode: AbsoluteX, opcode: SRE, cycles: 7 }),
            0x5b => Some(Instruction { mode: AbsoluteY, opcode: SRE, cycles: 7 }),
            0x43 => Some(Instruction { mode: IndirectX, opcode: SRE, cycles: 8 }),
            0x53 => Some(Instruction { mode: IndirectY, opcode: SRE, cycles: 8 }),

            0x0c => Some(Instruction { mode: Absolute, opcode: IGN, cycles: 4 }),
            0x04 | 0x44 | 0x64 => Some(Instruction { mode: ZeroPage, opcode: IGN, cycles: 3 }),
            0x80 | 0x82 | 0x89 | 0xc2 | 0xe2 => {
                Some(Instruction { mode: Immediate, opcode: SKB, cycles: 2 })
            },
            0x14 | 0x34 | 0x54 | 0x74 | 0xd4 | 0xf4 => {
                Some(Instruction { mode: ZeroPageX, opcode: IGN, cycles: 4 })
            },
            0x1a | 0x3a | 0x5a | 0x7a | 0xda | 0xfa => {
                Some(Instruction { mode: Implied, opcode: NOP, cycles: 2 })
            },
            0x1c | 0x3c | 0x5c | 0x7c | 0xdc | 0xfc => {
                Some(Instruction { mode: AbsoluteX, opcode: IGN, cycles: 4 })
            },
            _ => None,
        }
    }

    /// The base cycle count of an operation in an addressing mode. It follows
    /// from the operation's class and the mode: what is read costs the bytes
    /// fetched and the read, a store costs the write and always pays for its
    /// indexing, and what is read, modified and written back costs two cycles
    /// more than a store. Jumps, calls, returns, breaks and stack operations
    /// have counts of their own.
    pub open spec fn timing(opcode: Opcode, mode: AddressingMode) -> u32 {
        match opcode.class() {
            Class::Read => match mode {
                ZeroPage => 3,
                ZeroPageX | ZeroPageY | Absolute | AbsoluteX | AbsoluteY => 4,
                IndirectY => 5,
                IndirectX => 6,
                _ => 2,
            },
            Class::Store => match mode {
                ZeroPage => 3,
                ZeroPageX | ZeroPageY | Absolute => 4,
                AbsoluteX | AbsoluteY => 5,
                IndirectX | IndirectY => 6,
                _ => 2,
            },
            Class::Modify => match mode {
                ZeroPage => 5,
                ZeroPageX | Absolute => 6,
                AbsoluteX | AbsoluteY => 7,
                IndirectX | IndirectY => 8,
                _ => 2,
            },
            Class::Register | Class::Branch => 2,
            Class::Flow => match opcode {
                JMP => if mode == Indirect {
                    5
                } else {
                    3
                },
                PHA | PHP => 3,
                PLA | PLP => 4,
                BRK => 7,
                _ => 6,
            },
        }
    }

    /// Every row of the table has the base cycle count that its operation
    /// and addressing mode call for.
    pub proof fn lemma_table_follows_timing(op: u8)
        ensures
            Instruction::lookup(op) matches Some(instr) ==> instr.cycles == Instruction::timing(
                instr.opcode,
                instr.mode,
            ),
    {
    }

    /// Decodes one opcode byte. Every byte is answered: with the instruction
    /// that the table gives for it, or with `None` where the table holds none.
    pub fn decode(op: u8) -> (instr: Option<Instruction>)
        ensures
            instr == Instruction::lookup(op),
            instr matches Some(found) ==> 2 <= found.cycles <= 8,
    {
        match op {
            0x69 => Some(Instruction { mode: Immediate, opcode: ADC, cycles: 2 }),
            0x65 => Some(Instruction { mode: ZeroPage, opcode: ADC, cycles: 3 }),
            0x75 => Some(Instruction { mode: ZeroPageX, opcode: ADC, cycles: 4 }),
            0x6d => Some(Instruction { mode: Absolute, opcode: ADC, cycles: 4 }),
            0x7d => Some(Instruction { mode: AbsoluteX, opcode: ADC, cycles: 4 }),
            0x79 => Some(Instruction { mode: AbsoluteY, opcode: ADC, cycles: 4 }),
            0x61 => Some(Instruction { mode: IndirectX, opcode: ADC, cycles: 6 }),
            0x71 => Some(Instruction { mode: IndirectY, opcode: ADC, cycles: 5 }),

            0x29 => Some(Instruction { mode: Immediate, opcode: AND, cycles: 2 }),
            0x25 => Some(Instruction { mode: ZeroPage, opcode: AND, cycles: 3 }),
            0x35 => Some(Instruction { mode: ZeroPageX, opcode: AND, cycles: 4 }),
            0x2d => Some(Instruction { mode: Absolute, opcode: AND, cycles: 4 }),
            0x3d => Some(Instruction { mode: AbsoluteX, opcode: AND, cycles: 4 }),
            0x39 => Some(Instruction { mode: AbsoluteY, opcode: AND, cycles: 4 }),
            0x21 => Some(Instruction { mode: IndirectX, opcode: AND, cycles: 6 }),
            0x31 => Some(Instruction { mode: IndirectY, opcode: AND, cycles: 5 }),

            0x0a => Some(Instruction { mode: Accumulator, opcode: ASL, cycles: 2 }),
            0x06 => Some(Instruction { mode: ZeroPage, opcode: ASL, cycles: 5 }),
            0x16 => Some(Instruction { mode: ZeroPageX, opcode: ASL, cycles: 6 }),
            0x0e => Some(Instruction { mode: Absolute, opcode: ASL, cycles: 6 }),
            0x1e => Some(Instruction { mode: AbsoluteX, opcode: ASL, cycles: 7 }),

            0x24 => Some(Instruction { mode: ZeroPage, opcode: BIT, cycles: 3 }),
            0x2c => Some(Instruction { mode: Absolute, opcode: BIT, cycles: 4 }),

            0x00 => Some(Instruction { mode: Implied, opcode: BRK, cycles: 7 }),

            0x90 => Some(Instruction { mode: Relative, opcode: BCC, cycles: 2 }),
            0xb0 => Some(Instruction { mode: Relative, opcode: BCS, cycles: 2 }),
            0xf0 => Some(Instruction { mode: Relative, opcode: BEQ, cycles: 2 }),
            0x30 => Some(Instruction { mode: Relative, opcode: BMI, cycles: 2 }),
            0xd0 => Some(Instruction { mode: Relative, opcode: BNE, cycles: 2 }),
            0x10 => Some(Instruction { mode: Relative, opcode: BPL, cycles: 2 }),
            0x50 => Some(Instruction { mode: Relative, opcode: BVC, cycles: 2 }),
            0x70 => Some(Instruction { mode: Relative, opcode: BVS, cycles: 2 }),

            0x18 => Some(Instruction { mode: Implied, opcode: CLC, cycles: 2 }),
            0xd8 => Some(Instruction { mode: Implied, opcode: CLD, cycles: 2 }),
            0x58 => Some(Instruction { mode: Implied, opcode: CLI, cycles: 2 }),
            0xb8 => Some(Instruction { mode: Implied, opcode: CLV, cycles: 2 }),

            0xc9 => Some(Instruction { mode: Immediate, opcode: CMP, cycles: 2 }),
            0xc5 => Some(Instruction { mode: ZeroPage, opcode: CMP, cycles: 3 }),
            0xd5 => Some(Instruction { mode: ZeroPageX, opcode: CMP, cycles: 4 }),
            0xcd => Some(Instruction { mode: Absolute, opcode: CMP, cycles: 4 }),
            0xdd => Some(Instruction { mode: AbsoluteX, opcode: CMP, cycles: 4 }),
            0xd9 => Some(Instruction { mode: AbsoluteY, opcode: CMP, cycles: 4 }),
            0xc1 => Some(Instruction { mode: IndirectX, opcode: CMP, cycles: 6 }),
            0xd1 => Some(Instruction { mode: IndirectY, opcode: CMP, cycles: 5 }),

            0xe0 => Some(Instruction { mode: Immediate, opcode: CPX, cycles: 2 }),
            0xe4 => Some(Instruction { mode: ZeroPage, opcode: CPX, cycles: 3 }),
            0xec => Some(Instruction { mode: Absolute, opcode: CPX, cycles: 4 }),

            0xc0 => Some(Instruction { mode: Immediate, opcode: CPY, cycles: 2 }),
            0xc4 => Some(Instruction { mode: ZeroPage, opcode: CPY, cycles: 3 }),
            0xcc => Some(Instruction { mode: Absolute, opcode: CPY, cycles: 4 }),

            0xc6 => Some(Instruction { mode: ZeroPage, opcode: DEC, cycles: 5 }),
            0xd6 => Some(Instruction { mode: ZeroPageX, opcode: DEC, cycles: 6 }),
            0xce => Some(Instruction { mode: Absolute, opcode: DEC, cycles: 6 }),
            0xde => Some(Instruction { mode: AbsoluteX, opcode: DEC, cycles: 7 }),

            0xca => Some(Instruction { mode: Implied, opcode: DEX, cycles: 2 }),
            0x88 => Some(Instruction { mode: Implied, opcode: DEY, cycles: 2 }),

            0x49 => Some(Instruction { mode: Immediate, opcode: EOR, cycles: 2 }),
            0x45 => Some(Instruction { mode: ZeroPage, opcode: EOR, cycles: 3 }),
            0x55 => Some(Instruction { mode: ZeroPageX, opcode: EOR, cycles: 4 }),
            0x4d => Some(Instruction { mode: Absolute, opcode: EOR, cycles: 4 }),
            0x5d => Some(Instruction { mode: AbsoluteX, opcode: EOR, cycles: 4 }),
            0x59 => Some(Instruction { mode: AbsoluteY, opcode: EOR, cycles: 4 }),
            0x41 => Some(Instruction { mode: IndirectX, opcode: EOR, cycles: 6 }),
            0x51 => Some(Instruction { mode: IndirectY, opcode: EOR, cycles: 5 }),

            0xe6 => Some(Instruction { mode: ZeroPage, opcode: INC, cycles: 5 }),
            0xf6 => Some(Instruction { mode: ZeroPageX, opcode: INC, cycles: 6 }),
            0xee => Some(Instruction { mode: Absolute, opcode: INC, cycles: 6 }),
            0xfe => Some(Instruction { mode: AbsoluteX, opcode: INC, cycles: 7 }),

            0xe8 => Some(Instruction { mode: Implied, opcode: INX, cycles: 2 }),
            0xc8 => Some(Instruction { mode: Implied, opcode: INY, cycles: 2 }),

            0x4c => Some(Instruction { mode: Absolute, opcode: JMP, cycles: 3 }),
            0x6c => Some(Instruction { mode: Indirect, opcode: JMP, cycles: 5 }),
            0x20 => Some(Instruction { mode: Absolute, opcode: JSR, cycles: 6 }),

            0xa9 => Some(Instruction { mode: Immediate, opcode: LDA, cycles: 2 }),
            0xa5 => Some(Instruction { mode: ZeroPage, opcode: LDA, cycles: 3 }),
            0xb5 => Some(Instruction { mode: ZeroPageX, opcode: LDA, cycles: 4 }),
            0xad => Some(Instruction { mode: Absolute, opcode: LDA, cycles: 4 }),
            0xbd => Some(Instruction { mode: AbsoluteX, opcode: LDA, cycles: 4 }),
            0xb9 => Some(Instruction { mode: AbsoluteY, opcode: LDA, cycles: 4 }),
            0xa1 => Some(Instruction { mode: IndirectX, opcode: LDA, cycles: 6 }),
            0xb1 => Some(Instruction { mode: IndirectY, opcode: LDA, cycles: 5 }),

            0xa2 => Some(Instruction { mode: Immediate, opcode: LDX, cycles: 2 }),
            0xa6 => Some(Instruction { mode: ZeroPage, opcode: LDX, cycles: 3 }),
            0xb6 => Some(Instruction { mode: ZeroPageY, opcode: LDX, cycles: 4 }),
            0xae => Some(Instruction { mode: Absolute, opcode: LDX, cycles: 4 }),
            0xbe => Some(Instruction { mode: AbsoluteY, opcode: LDX, cycles: 4 }),

            0xa0 => Some(Instruction { mode: Immediate, opcode: LDY, cycles: 2 }),
            0xa4 => Some(Instruction { mode: ZeroPage, opcode: LDY, cycles: 3 }),
            0xb4 => Some(Instruction { mode: ZeroPageX, opcode: LDY, cycles: 4 }),
            0xac => Some(Instruction { mode: Absolute, opcode: LDY, cycles: 4 }),
            0xbc => Some(Instruction { mode: AbsoluteX, opcode: LDY, cycles: 4 }),

            0x4a => Some(Instruction { mode: Accumulator, opcode: LSR, cycles: 2 }),
            0x46 => Some(Instruction { mode: ZeroPage, opcode: LSR, cycles: 5 }),
            0x56 => Some(Instruction { mode: ZeroPageX, opcode: LSR, cycles: 6 }),
            0x4e => Some(Instruction { mode: Absolute, opcode: LSR, cycles: 6 }),
            0x5e => Some(Instruction { mode: AbsoluteX, opcode: LSR, cycles: 7 }),

            0xea => Some(Instruction { mode: Implied, opcode: NOP, cycles: 2 }),

            0x09 => Some(Instruction { mode: Immediate, opcode: ORA, cycles: 2 }),
            0x05 => Some(Instruction { mode: ZeroPage, opcode: ORA, cycles: 3 }),
            0x15 => Some(Instruction { mode: ZeroPageX, opcode: ORA, cycles: 4 }),
            0x0d => Some(Instruction { mode: Absolute, opcode: ORA, cycles: 4 }),
            0x1d => Some(Instruction { mode: AbsoluteX, opcode: ORA, cycles: 4 }),
            0x19 => Some(Instruction { mode: AbsoluteY, opcode: ORA, cycles: 4 }),
            0x01 => Some(Instruction { mode: IndirectX, opcode: ORA, cycles: 6 }),
            0x11 => Some(Instruction { mode: IndirectY, opcode: ORA, cycles: 5 }),

            0x48 => Some(Instruction { mode: Implied, opcode: PHA, cycles: 3 }),
            0x08 => Some(Instruction { mode: Implied, opcode: PHP, cycles: 3 }),
            0x68 => Some(Instruction { mode: Implied, opcode: PLA, cycles: 4 }),
            0x28 => Some(Instruction { mode: Implied, opcode: PLP, cycles: 4 }),

            0x2a => Some(Instruction { mode: Accumulator, opcode: ROL, cycles: 2 }),
            0x26 => Some(Instruction { mode: ZeroPage, opcode: ROL, cycles: 5 }),
            0x36 => Some(Instruction { mode: ZeroPageX, opcode: ROL, cycles: 6 }),
            0x2e => Some(Instruction { mode: Absolute, opcode: ROL, cycles: 6 }),
            0x3e => Some(Instruction { mode: AbsoluteX, opcode: ROL, cycles: 7 }),

            0x6a => Some(Instruction { mode: Accumulator, opcode: ROR, cycles: 2 }),
            0x66 => Some(Instruction { mode: ZeroPage, opcode: ROR, cycles: 5 }),
            0x76 => Some(Instruction { mode: ZeroPageX, opcode: ROR, cycles: 6 }),
            0x6e => Some(Instruction { mode: Absolute, opcode: ROR, cycles: 6 }),
            0x7e => Some(Instruction { mode: AbsoluteX, opcode: ROR, cycles: 7 }),

            0x40 => Some(Instruction { mode: Implied, opcode: RTI, cycles: 6 }),
            0x60 => Some(Instruction { mode: Implied, opcode: RTS, cycles: 6 }),

            0xe9 => Some(Instruction { mode: Immediate, opcode: SBC, cycles: 2 }),
            0xe5 => Some(Instruction { mode: ZeroPage, opcode: SBC, cycles: 3 }),
            0xf5 => Some(Instruction { mode: ZeroPageX, opcode: SBC, cycles: 4 }),
            0xed => Some(Instruction { mode: Absolute, opcode: SBC, cycles: 4 }),
            0xfd => Some(Instruction { mode: AbsoluteX, opcode: SBC, cycles: 4 }),
            0xf9 => Some(Instruction { mode: AbsoluteY, opcode: SBC, cycles: 4 }),
            0xe1 => Some(Instruction { mode: IndirectX, opcode: SBC, cycles: 6 }),
            0xf1 => Some(Instruction { mode: IndirectY, opcode: SBC, cycles: 5 }),

            0x38 => Some(Instruction { mode: Implied, opcode: SEC, cycles: 2 }),
            0xf8 => Some(Instruction { mode: Implied, opcode: SED, cycles: 2 }),
            0x78 => Some(Instruction { mode: Implied, opcode: SEI, cycles: 2 }),

            0x85 => Some(Instruction { mode: ZeroPage, opcode: STA, cycles: 3 }),
            0x95 => Some(Instruction { mode: ZeroPageX, opcode: STA, cycles: 4 }),
            0x8d => Some(Instruction { mode: Absolute, opcode: STA, cycles: 4 }),
            0x9d => Some(Instruction { mode: AbsoluteX, opcode: STA, cycles: 5 }),
            0x99 => Some(Instruction { mode: AbsoluteY, opcode: STA, cycles: 5 }),
            0x81 => Some(Instruction { mode: IndirectX, opcode: STA, cycles: 6 }),
            0x91 => Some(Instruction { mode: IndirectY, opcode: STA, cycles: 6 }),

            0x86 => Some(Instruction { mode: ZeroPage, opcode: STX, cycles: 3 }),
            0x96 => Some(Instruction { mode: ZeroPageY, opcode: STX, cycles: 4 }),
            0x8e => Some(Instruction { mode: Absolute, opcode: STX, cycles: 4 }),

            0x84 => Some(Instruction { mode: ZeroPage, opcode: STY, cycles: 3 }),
            0x94 => Some(Instruction { mode: ZeroPageX, opcode: STY, cycles: 4 }),
            0x8c => Some(Instruction { mode: Absolute, opcode: STY, cycles: 4 }),

            0xaa => Some(Instruction { mode: Implied, opcode: TAX, cycles: 2 }),
            0xa8 => Some(Instruction { mode: Implied, opcode: TAY, cycles: 2 }),
            0xba => Some(Instruction { mode: Implied, opcode: TSX, cycles: 2 }),
            0x8a => Some(Instruction { mode: Implied, opcode: TXA, cycles: 2 }),
            0x9a => Some(Instruction { mode: Implied, opcode: TXS, cycles: 2 }),
            0x98 => Some(Instruction { mode: Implied, opcode: TYA, cycles: 2 }),

            0x4b => Some(Instruction { mode: Immediate, opcode: ALR, cycles: 2 }),
            0x0b => Some(Instruction { mode: Immediate, opcode: ANC, cycles: 2 }),
            0x6b => Some(Instruction { mode: Immediate, opcode: ARR, cycles: 2 }),

            0xc7 => Some(Instruction { mode: ZeroPage, opcode: DCP, cycles: 5 }),
            0xd7 => Some(Instruction { mode: ZeroPageX, opcode: DCP, cycles: 6 }),
            0xcf => Some(Instruction { mode: Absolute, opcode: DCP, cycles: 6 }),
            0xdf => Some(Instruction { mode: AbsoluteX, opcode: DCP, cycles: 7 }),
            0xdb => Some(Instruction { mode: AbsoluteY, opcode: DCP, cycles: 7 }),
            0xc3 => Some(Instruction { mode: IndirectX, opcode: DCP, cycles: 8 }),
            0xd3 => Some(Instruction { mode: IndirectY, opcode: DCP, cycles: 8 }),

            0xe7 => Some(Instruction { mode: ZeroPage, opcode: ISC, cycles: 5 }),
            0xf7 => Some(Instruction { mode: ZeroPageX, opcode: ISC, cycles: 6 }),
            0xef => Some(Instruction { mode: Absolute, opcode: ISC, cycles: 6 }),
            0xff => Some(Instruction { mode: AbsoluteX, opcode: ISC, cycles: 7 }),
            0xfb => Some(Instruction { mode: AbsoluteY, opcode: ISC, cycles: 7 }),
            0xe3 => Some(Instruction { mode: IndirectX, opcode: ISC, cycles: 8 }),
            0xf3 => Some(Instruction { mode: IndirectY, opcode: ISC, cycles: 8 }),

            0xa7 => Some(Instruction { mode: ZeroPage, opcode: LAX, cycles: 3 }),
            0xb7 => Some(Instruction { mode: ZeroPageY, opcode: LAX, cycles: 4 }),
            0xaf => Some(Instruction { mode: Absolute, opcode: LAX, cycles: 4 }),
            0xbf => Some(Instruction { mode: AbsoluteY, opcode: LAX, cycles: 4 }),
            0xa3 => Some(Instruction { mode: IndirectX, opcode: LAX, cycles: 6 }),
            0xb3 => Some(Instruction { mode: IndirectY, opcode: LAX, cycles: 5 }),

            0x27 => Some(Instruction { mode: ZeroPage, opcode: RLA, cycles: 5 }),
            0x37 => Some(Instruction { mode: ZeroPageX, opcode: RLA, cycles: 6 }),
            0x2f => Some(Instruction { mode: Absolute, opcode: RLA, cycles: 6 }),
            0x3f => Some(Instruction { mode: AbsoluteX, opcode: RLA, cycles: 7 }),
            0x3b => Some(Instruction { mode: AbsoluteY, opcode: RLA, cycles: 7 }),
            0x23 => Some(Instruction { mode: IndirectX, opcode: RLA, cycles: 8 }),
            0x33 => Some(Instruction { mode: IndirectY, opcode: RLA, cycles: 8 }),

            0x67 => Some(Instruction { mode: ZeroPage, opcode: RRA, cycles: 5 }),
            0x77 => Some(Instruction { mode: ZeroPageX, opcode: RRA, cycles: 6 }),
            0x6f => Some(Instruction { mode: Absolute, opcode: RRA, cycles: 6 }),
            0x7f => Some(Instruction { mode: AbsoluteX, opcode: RRA, cycles: 7 }),
            0x7b => Some(Instruction { mode: AbsoluteY, opcode: RRA, cycles: 7 }),
            0x63 => Some(Instruction { mode: IndirectX, opcode: RRA, cycles: 8 }),
            0x73 => Some(Instruction { mode: IndirectY, opcode: RRA, cycles: 8 }),

            0x87 => Some(Instruction { mode: ZeroPage, opcode: SAX, cycles: 3 }),
            0x97 => Some(Instruction { mode: ZeroPageY, opcode: SAX, cycles: 4 }),
            0x8f => Some(Instruction { mode: Absolute, opcode: SAX, cycles: 4 }),
            0x83 => Some(Instruction { mode: IndirectX, opcode: SAX, cycles: 6 }),

            0xcb => Some(Instruction { mode: Immediate, opcode: AXS, cycles: 2 }),

            0x07 => Some(Instruction { mode: ZeroPage, opcode: SLO, cycles: 5 }),
            0x17 => Some(Instruction { mode: ZeroPageX, opcode: SLO, cycles: 6 }),
            0x0f => Some(Instruction { mode: Absolute, opcode: SLO, cycles: 6 }),
            0x1f => Some(Instruction { mode: AbsoluteX, opcode: SLO, cycles: 7 }),
            0x1b => Some(Instruction { mode: AbsoluteY, opcode: SLO, cycles: 7 }),
            0x03 => Some(Instruction { mode: IndirectX, opcode: SLO, cycles: 8 }),
            0x13 => Some(Instruction { mode: IndirectY, opcode: SLO, cycles: 8 }),

            0x47 => Some(Instruction { mode: ZeroPage, opcode: SRE, cycles: 5 }),
            0x57 => Some(Instruction { mode: ZeroPageX, opcode: SRE, cycles: 6 }),
            0x4f => Some(Instruction { mode: Absolute, opcode: SRE, cycles: 6 }),
            0x5f => Some(Instruction { mode: AbsoluteX, opcode: SRE, cycles: 7 }),
            0x5b => Some(Instruction { mode: AbsoluteY, opcode: SRE, cycles: 7 }),
            0x43 => Some(Instruction { mode: IndirectX, opcode: SRE, cycles: 8 }),
            0x53 => Some(Instruction { mode: IndirectY, opcode: SRE, cycles: 8 }),

            0x0c => Some(Instruction { mode: Absolute, opcode: IGN, cycles: 4 }),
            0x04 | 0x44 | 0x64 => Some(Instruction { mode: ZeroPage, opcode: IGN, cycles: 3 }),
            0x80 | 0x82 | 0x89 | 0xc2 | 0xe2 => {
                Some(Instruction { mode: Immediate, opcode: SKB, cycles: 2 })
            },
            0x14 | 0x34 | 0x54 | 0x74 | 0xd4 | 0xf4 => {
                Some(Instruction { mode: ZeroPageX, opcode: IGN, cycles: 4 })
            },
            0x1a | 0x3a | 0x5a | 0x7a | 0xda | 0xfa => {
                Some(Instruction { mode: Implied, opcode: NOP, cycles: 2 })
            },
            0x1c | 0x3c | 0x5c | 0x7c | 0xdc | 0xfc => {
                Some(Instruction { mode: AbsoluteX, opcode: IGN, cycles: 4 })
            },
            _ => None,
        }
    }
}

} // verus!
