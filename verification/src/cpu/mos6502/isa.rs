//! Instructions and their execution.

use super::alu::{branch_taken, modify_op, read_op, register_op, store_op};
use super::{Psr, Registers};
use crate::bits::{hi, lo, make_word, same_page, signed, word};
use crate::mem::{BusState, Memory};
use crate::ppu::PpuError;
use vstd::prelude::*;

verus! {

/// How an instruction finds its operand.
#[derive(PartialEq, Eq, Structural, Copy, Clone, Debug)]
pub enum AddressingMode {
    Accumulator,
    Immediate,
    Absolute,
    ZeroPage,
    ZeroPageX,
    ZeroPageY,
    AbsoluteX,
    AbsoluteY,
    Implied,
    Relative,
    IndirectX,
    IndirectY,
    Indirect,
}

/// What an instruction does. The last fourteen are the undocumented
/// operations that shipped software relies on.
#[derive(PartialEq, Eq, Structural, Copy, Clone, Debug)]
pub enum Opcode {
    ADC,
    SBC,
    AND,
    EOR,
    ORA,
    ASL,
    LSR,
    ROL,
    ROR,
    INC,
    INX,
    INY,
    DEC,
    DEX,
    DEY,
    LDA,
    LDX,
    LDY,
    STA,
    STX,
    STY,
    SEC,
    SED,
    SEI,
    CLC,
    CLD,
    CLI,
    CLV,
    CMP,
    CPX,
    CPY,
    JMP,
    JSR,
    RTI,
    RTS,
    BCC,
    BCS,
    BEQ,
    BMI,
    BNE,
    BPL,
    BVC,
    BVS,
    PHA,
    PHP,
    PLA,
    PLP,
    TAX,
    TAY,
    TSX,
    TXA,
    TXS,
    TYA,
    BRK,
    BIT,
    NOP,
    ALR,
    ANC,
    ARR,
    AXS,
    LAX,
    SAX,
    DCP,
    ISC,
    RLA,
    RRA,
    SLO,
    SRE,
    SKB,
    IGN,
}

/// A decoded instruction: addressing mode, operation and base cycle count.
#[derive(PartialEq, Eq, Structural, Copy, Clone, Debug)]
pub struct Instruction {
    pub mode: AddressingMode,
    pub opcode: Opcode,
    pub cycles: u32,
}

/// What an instruction works on: the byte, the address it came from (0 where
/// there is none) and the extra cycle that a page crossing costs.
#[derive(PartialEq, Eq, Structural, Copy, Clone, Debug)]
pub struct Operand {
    pub value: u8,
    pub addr: u16,
    pub extra_cycle: u32,
}

/// The part that an operation plays, which decides how it is carried out.
#[derive(PartialEq, Eq, Structural, Copy, Clone, Debug)]
pub enum Class {
    /// Reads its operand and works on registers.
    Read,
    /// Writes a register to the operand's address, which it does not read.
    Store,
    /// Reads its operand, changes it and writes it back.
    Modify,
    /// Works on registers alone.
    Register,
    /// Moves the program counter if a flag allows.
    Branch,
    /// Works on the stack or redirects the program counter.
    Flow,
}

/// The kind of a fatal condition.
#[derive(PartialEq, Eq, Structural, Copy, Clone, Debug)]
pub enum Fault {
    /// The opcode byte stands for no instruction.
    UnknownOpcode,
    /// The instruction wrote where nothing can be written: to the picture
    /// processor's data port while its address pointed into character ROM.
    IllegalWrite,
}

/// A fatal condition, with what is needed to reproduce it.
#[derive(PartialEq, Eq, Structural, Copy, Clone, Debug)]
pub struct CpuError {
    pub kind: Fault,
    /// The opcode byte of the instruction.
    pub opcode: u8,
    /// The program counter just past the opcode byte.
    pub pc: u16,
    /// The video address of a refused write; 0 for an unknown opcode.
    pub addr: u16,
}

impl AddressingMode {
    /// Whether the operand is a byte of memory at an address that the mode
    /// computes.
    pub open spec fn in_memory(self) -> bool {
        match self {
            AddressingMode::Absolute
            | AddressingMode::ZeroPage
            | AddressingMode::ZeroPageX
            | AddressingMode::ZeroPageY
            | AddressingMode::AbsoluteX
            | AddressingMode::AbsoluteY
            | AddressingMode::IndirectX
            | AddressingMode::IndirectY => true,
            _ => false,
        }
    }

    /// The instruction bytes that follow the opcode in this mode.
    pub open spec fn operand_bytes(self) -> u16 {
        match self {
            AddressingMode::Implied | AddressingMode::Accumulator => 0,
            AddressingMode::Absolute
            | AddressingMode::AbsoluteX
            | AddressingMode::AbsoluteY
            | AddressingMode::Indirect => 2,
            _ => 1,
        }
    }

    /// Whether the mode indexes an address that may lie in any page, so that
    /// the index can carry it into another page.
    pub open spec fn can_cross(self) -> bool {
        self == AddressingMode::AbsoluteX || self == AddressingMode::AbsoluteY || self
            == AddressingMode::IndirectY
    }

    /// Whether the operand is a byte of memory at an address that the mode
    /// computes.
    pub fn is_in_memory(self) -> (yes: bool)
        ensures
            yes == self.in_memory(),
    {
        match self {
            AddressingMode::Absolute
            | AddressingMode::ZeroPage
            | AddressingMode::ZeroPageX
            | AddressingMode::ZeroPageY
            | AddressingMode::AbsoluteX
            | AddressingMode::AbsoluteY
            | AddressingMode::IndirectX
            | AddressingMode::IndirectY => true,
            _ => false,
        }
    }
}

impl Opcode {
    /// The part that the operation plays.
    pub open spec fn class(self) -> Class {
        match self {
            Opcode::ADC
            | Opcode::SBC
            | Opcode::AND
            | Opcode::EOR
            | Opcode::ORA
            | Opcode::LDA
            | Opcode::LDX
            | Opcode::LDY
            | Opcode::CMP
            | Opcode::CPX
            | Opcode::CPY
            | Opcode::BIT
            | Opcode::LAX
            | Opcode::ALR
            | Opcode::ANC
            | Opcode::ARR
            | Opcode::AXS
            | Opcode::IGN
            | Opcode::SKB => Class::Read,
            Opcode::STA | Opcode::STX | Opcode::STY | Opcode::SAX => Class::Store,
            Opcode::ASL
            | Opcode::LSR
            | Opcode::ROL
            | Opcode::ROR
            | Opcode::INC
            | Opcode::DEC
            | Opcode::SLO
            | Opcode::RLA
            | Opcode::SRE
            | Opcode::RRA
            | Opcode::DCP
            | Opcode::ISC => Class::Modify,
            Opcode::BCC
            | Opcode::BCS
            | Opcode::BEQ
            | Opcode::BMI
            | Opcode::BNE
            | Opcode::BPL
            | Opcode::BVC
            | Opcode::BVS => Class::Branch,
            Opcode::JMP
            | Opcode::JSR
            | Opcode::RTS
            | Opcode::RTI
            | Opcode::BRK
            | Opcode::PHA
            | Opcode::PHP
            | Opcode::PLA
            | Opcode::PLP => Class::Flow,
            _ => Class::Register,
        }
    }

    /// The part that the operation plays.
    pub fn classify(self) -> (class: Class)
        ensures
            class == self.class(),
    {
        match self {
            Opcode::ADC
            | Opcode::SBC
            | Opcode::AND
            | Opcode::EOR
            | Opcode::ORA
            | Opcode::LDA
            | Opcode::LDX
            | Opcode::LDY
            | Opcode::CMP
            | Opcode::CPX
            | Opcode::CPY
            | Opcode::BIT
            | Opcode::LAX
            | Opcode::ALR
            | Opcode::ANC
            | Opcode::ARR
            | Opcode::AXS
            | Opcode::IGN
            | Opcode::SKB => Class::Read,
            Opcode::STA | Opcode::STX | Opcode::STY | Opcode::SAX => Class::Store,
            Opcode::ASL
            | Opcode::LSR
            | Opcode::ROL
            | Opcode::ROR
            | Opcode::INC
            | Opcode::DEC
            | Opcode::SLO
            | Opcode::RLA
            | Opcode::SRE
            | Opcode::RRA
            | Opcode::DCP
            | Opcode::ISC => Class::Modify,
            Opcode::BCC
            | Opcode::BCS
            | Opcode::BEQ
            | Opcode::BMI
            | Opcode::BNE
            | Opcode::BPL
            | Opcode::BVC
            | Opcode::BVS => Class::Branch,
            Opcode::JMP
            | Opcode::JSR
            | Opcode::RTS
            | Opcode::RTI
            | Opcode::BRK
            | Opcode::PHA
            | Opcode::PHP
            | Opcode::PLA
            | Opcode::PLP => Class::Flow,
            _ => Class::Register,
        }
    }
}

/// The address where an interrupt or a break finds the address to go on at.
pub const BREAK_VECTOR: u16 = 0xfffe;

/// The processor's registers together with everything behind the bus, as a
/// mathematical value. The functions on it say what each step of an
/// instruction does.
pub struct Machine {
    pub regs: Registers,
    pub bus: BusState,
}

/// The machine that given registers and a given bus state make up.
pub open spec fn machine(regs: Registers, bus: BusState) -> Machine {
    Machine { regs, bus }
}

/// An address moved by an index register, wrapping at the end of the address
/// space, with the extra cycle that it costs to leave the base's page.
pub open spec fn indexed(base: u16, index: u8) -> (u16, u32) {
    let addr = base.wrapping_add(index as u16);
    (
        addr,
        if same_page(base, addr) {
            0
        } else {
            1
        },
    )
}

/// The address a branch goes to: the program counter moved by the offset
/// byte read as a signed number, wrapping at both ends of the address space.
pub open spec fn branch_target(pc: u16, offset: u8) -> u16 {
    ((pc + signed(offset)) % 0x1_0000) as u16
}

impl Machine {
    /// Registers and bus state are well formed.
    pub open spec fn wf(self) -> bool {
        self.regs.wf() && self.bus.wf()
    }

    /// Reads a byte over the bus.
    pub open spec fn read8(self, addr: u16) -> (u8, Machine) {
        (self.bus.read8(addr).0, Machine { bus: self.bus.read8(addr).1, ..self })
    }

    /// Reads a word over the bus.
    pub open spec fn read16(self, addr: u16) -> (u16, Machine) {
        (self.bus.read16(addr).0, Machine { bus: self.bus.read16(addr).1, ..self })
    }

    /// Reads the word that a zero-page pointer holds: both of its bytes lie in
    /// page zero, the second at address 0 when the first is at `0xff`.
    pub open spec fn read16_zp(self, ptr: u8) -> (u16, Machine) {
        let (lo, after_lo) = self.read8(ptr as u16);
        let (hi, after_hi) = after_lo.read8(ptr.wrapping_add(1) as u16);
        (word(lo, hi), after_hi)
    }

    /// Writes a byte over the bus.
    pub open spec fn write8(self, addr: u16, val: u8) -> (Result<(), PpuError>, Machine) {
        (self.bus.write8(addr, val).0, Machine { bus: self.bus.write8(addr, val).1, ..self })
    }

    /// These registers on the same bus.
    pub open spec fn with_regs(self, regs: Registers) -> Machine {
        Machine { regs, ..self }
    }

    /// The program counter set to an address.
    pub open spec fn jump(self, addr: u16) -> Machine {
        self.with_regs(Registers { pc: addr, ..self.regs })
    }

    /// Takes the next byte of the instruction: reads at the program counter
    /// and moves it on by one.
    pub open spec fn next8(self) -> (u8, Machine) {
        (self.read8(self.regs.pc).0, self.read8(self.regs.pc).1.jump(self.regs.pc.wrapping_add(1)))
    }

    /// Takes the next two bytes of the instruction as a word, low byte first.
    pub open spec fn next16(self) -> (u16, Machine) {
        (
            self.read16(self.regs.pc).0,
            self.read16(self.regs.pc).1.jump(self.regs.pc.wrapping_add(2)),
        )
    }

    /// Consumes the instruction bytes of an addressing mode and finds the
    /// operand's address, without reading what is at that address.
    ///
    /// The value is the accumulator in accumulator mode, the instruction byte
    /// in immediate and relative mode, and 0 otherwise. The address is 0
    /// where the mode has none. Indexing in the zero page wraps within it,
    /// and so does the pointer of the two indexed indirect modes; indexing an
    /// absolute address, or the address that such a pointer holds, into
    /// another page sets the extra cycle. The pointer of an indirect jump is
    /// read like any word over the bus: its high byte comes from the address
    /// after the low byte's, across a page's end too.
    pub open spec fn locate(self, mode: AddressingMode) -> (Operand, Machine) {
        match mode {
            AddressingMode::Implied => (Operand { value: 0, addr: 0, extra_cycle: 0 }, self),
            AddressingMode::Accumulator => (
                Operand { value: self.regs.a, addr: 0, extra_cycle: 0 },
                self,
            ),
            AddressingMode::Immediate => (
                Operand { value: self.next8().0, addr: 0, extra_cycle: 0 },
                self.next8().1,
            ),
            AddressingMode::Absolute => (
                Operand { value: 0, addr: self.next16().0, extra_cycle: 0 },
                self.next16().1,
            ),
            AddressingMode::ZeroPage => (
                Operand { value: 0, addr: self.next8().0 as u16, extra_cycle: 0 },
                self.next8().1,
            ),
            AddressingMode::ZeroPageX => (
                Operand {
                    value: 0,
                    addr: self.next8().0.wrapping_add(self.regs.x) as u16,
                    extra_cycle: 0,
                },
                self.next8().1,
            ),
            AddressingMode::ZeroPageY => (
                Operand {
                    value: 0,
                    addr: self.next8().0.wrapping_add(self.regs.y) as u16,
                    extra_cycle: 0,
                },
                self.next8().1,
            ),
            AddressingMode::AbsoluteX => (
                Operand {
                    value: 0,
                    addr: indexed(self.next16().0, self.regs.x).0,
                    extra_cycle: indexed(self.next16().0, self.regs.x).1,
                },
                self.next16().1,
            ),
            AddressingMode::AbsoluteY => (
                Operand {
                    value: 0,
                    addr: indexed(self.next16().0, self.regs.y).0,
                    extra_cycle: indexed(self.next16().0, self.regs.y).1,
                },
                self.next16().1,
            ),
            AddressingMode::Indirect => {
                let (ptr, m) = self.next16();
                (Operand { value: 0, addr: m.read16(ptr).0, extra_cycle: 0 }, m.read16(ptr).1)
            },
            AddressingMode::IndirectX => {
                let (base, m) = self.next8();
                let ptr = base.wrapping_add(self.regs.x);
                (Operand { value: 0, addr: m.read16_zp(ptr).0, extra_cycle: 0 }, m.read16_zp(ptr).1)
            },
            AddressingMode::IndirectY => {
                let (ptr, m) = self.next8();
                let (base, after) = m.read16_zp(ptr);
                (
                    Operand {
                        value: 0,
                        addr: indexed(base, self.regs.y).0,
                        extra_cycle: indexed(base, self.regs.y).1,
                    },
                    after,
                )
            },
            AddressingMode::Relative => {
                let (offset, m) = self.next8();
                (
                    Operand {
                        value: offset,
                        addr: branch_target(m.regs.pc, offset),
                        extra_cycle: 0,
                    },
                    m,
                )
            },
        }
    }

    /// Resolves the operand of an addressing mode in full: finds it as
    /// `locate` does and, where it is a byte of memory, reads that byte.
    pub open spec fn fetch_operand(self, mode: AddressingMode) -> (Operand, Machine) {
        let (found, m) = self.locate(mode);
        if mode.in_memory() {
            (Operand { value: m.read8(found.addr).0, ..found }, m.read8(found.addr).1)
        } else {
            (found, m)
        }
    }

    /// The address in page 1 that a stack pointer stands for. Only the
    /// pointer's low eight bits count.
    pub open spec fn stack_addr(sp: int) -> u16 {
        (0x0100 + sp % 256) as u16
    }

    /// Pushes a byte: stores it where the stack pointer points, then moves
    /// the pointer down by one, from `0x0100` around to `0x01ff`.
    pub open spec fn push(self, val: u8) -> Machine {
        Machine {
            regs: Registers { sp: Self::stack_addr(self.regs.sp - 1), ..self.regs },
            bus: self.bus.write8(Self::stack_addr(self.regs.sp as int), val).1,
        }
    }

    /// Pops a byte: moves the stack pointer up by one, from `0x01ff` around
    /// to `0x0100`, then reads where it points.
    pub open spec fn pop(self) -> (u8, Machine) {
        let sp = Self::stack_addr(self.regs.sp + 1);
        self.with_regs(Registers { sp, ..self.regs }).read8(sp)
    }

    /// Pushes a word, high byte first.
    pub open spec fn push16(self, val: u16) -> Machine {
        self.push(crate::bits::high_byte(val)).push(crate::bits::low_byte(val))
    }

    /// Pops a word, low byte first.
    pub open spec fn pop16(self) -> (u16, Machine) {
        let (lo, after_lo) = self.pop();
        let (hi, after_hi) = after_lo.pop();
        (word(lo, hi), after_hi)
    }

    /// Return from interrupt: pops the flags, then the program counter.
    pub open spec fn rti(self) -> Machine {
        let (bits, m) = self.pop();
        let (pc, after) = m.with_regs(Registers { psr: Psr { bits }, ..m.regs }).pop16();
        after.jump(pc)
    }

    /// Call: pushes the address of the instruction's own last byte, which
    /// lies one before the program counter, and goes on at the target.
    pub open spec fn jsr(self, target: u16) -> Machine {
        self.push16(self.regs.pc.wrapping_sub(1)).jump(target)
    }

    /// Return: pops an address and goes on one past it.
    pub open spec fn rts(self) -> Machine {
        self.pop16().1.jump(self.pop16().0.wrapping_add(1))
    }

    /// Break: pushes the address after the padding byte that follows the
    /// opcode, then the flags with the break bit set; disables interrupts and
    /// goes on at the address found at `BREAK_VECTOR`.
    pub open spec fn brk(self) -> Machine {
        let pushed = self.push16(self.regs.pc.wrapping_add(1)).push(
            self.regs.psr.with(Psr::B, true).bits,
        );
        let masked = pushed.with_regs(pushed.regs.with_flag(Psr::I, true));
        masked.read16(BREAK_VECTOR).1.jump(masked.read16(BREAK_VECTOR).0)
    }

    /// Pushes the accumulator.
    pub open spec fn pha(self) -> Machine {
        self.push(self.regs.a)
    }

    /// Pushes the flags, all eight bits as they are.
    pub open spec fn php(self) -> Machine {
        self.push(self.regs.psr.bits)
    }

    /// Pulls the accumulator; zero and negative follow it.
    pub open spec fn pla(self) -> Machine {
        self.pop().1.with_regs(self.pop().1.regs.load_a(self.pop().0))
    }

    /// Pulls the flags, all eight bits as they come.
    pub open spec fn plp(self) -> Machine {
        self.pop().1.with_regs(Registers { psr: Psr { bits: self.pop().0 }, ..self.pop().1.regs })
    }

    /// What a stack or jump operation does, given where its operand lies.
    pub open spec fn flow(self, opcode: Opcode, target: u16) -> Machine {
        match opcode {
            Opcode::JMP => self.jump(target),
            Opcode::JSR => self.jsr(target),
            Opcode::RTS => self.rts(),
            Opcode::RTI => self.rti(),
            Opcode::BRK => self.brk(),
            Opcode::PHA => self.pha(),
            Opcode::PHP => self.php(),
            Opcode::PLA => self.pla(),
            Opcode::PLP => self.plp(),
            _ => self,
        }
    }

    /// The extra cycles of a branch and the machine after it. A branch that
    /// is not taken costs nothing more. One that is taken costs one cycle,
    /// and a second one where the target lies in another page than the
    /// instruction that follows the branch.
    pub open spec fn branch(self, opcode: Opcode, target: u16) -> (u32, Machine) {
        if self.regs.branch_taken(opcode) {
            (
                if same_page(self.regs.pc, target) {
                    1
                } else {
                    2
                },
                self.jump(target),
            )
        } else {
            (0, self)
        }
    }

    /// Carries out a decoded instruction: the cycles it takes beyond its base
    /// count, or the refusal of its write, and the machine after it.
    ///
    /// A refused write ends the instruction where it stands: the registers
    /// keep what the operand's resolution left in them.
    pub open spec fn run(self, instr: Instruction) -> (Result<u32, PpuError>, Machine) {
        match instr.opcode.class() {
            Class::Read => {
                let (operand, m) = self.fetch_operand(instr.mode);
                (
                    Ok(operand.extra_cycle),
                    m.with_regs(m.regs.read_op(instr.opcode, operand.value)),
                )
            },
            Class::Store => {
                let (operand, m) = self.locate(instr.mode);
                let (res, after) = m.write8(operand.addr, m.regs.store_op(instr.opcode));
                match res {
                    Ok(_) => (Ok(operand.extra_cycle), after),
                    Err(e) => (Err(e), after),
                }
            },
            Class::Modify => {
                let (operand, m) = self.fetch_operand(instr.mode);
                let (out, regs) = m.regs.modify_op(instr.opcode, operand.value);
                if instr.mode == AddressingMode::Accumulator {
                    (Ok(operand.extra_cycle), m.with_regs(Registers { a: out, ..regs }))
                } else {
                    let (res, after) = m.write8(operand.addr, out);
                    match res {
                        Ok(_) => (Ok(operand.extra_cycle), after.with_regs(regs)),
                        Err(e) => (Err(e), after),
                    }
                }
            },
            Class::Register => (Ok(0), self.with_regs(self.regs.register_op(instr.opcode))),
            Class::Branch => {
                let (operand, m) = self.fetch_operand(instr.mode);
                (Ok(m.branch(instr.opcode, operand.addr).0), m.branch(instr.opcode, operand.addr).1)
            },
            Class::Flow => {
                let (operand, m) = self.locate(instr.mode);
                (Ok(operand.extra_cycle), m.flow(instr.opcode, operand.addr))
            },
        }
    }

    /// Executes the instruction that an opcode byte stands for, the program
    /// counter standing just past that byte: the cycles it takes, or the
    /// fatal condition it ends in, and the machine after it.
    ///
    /// A byte that stands for no instruction changes nothing.
    pub open spec fn exec(self, op: u8) -> (Result<u32, CpuError>, Machine) {
        match Instruction::lookup(op) {
            None => (
                Err(
                    CpuError { kind: Fault::UnknownOpcode, opcode: op, pc: self.regs.pc, addr: 0 },
                ),
                self,
            ),
            Some(instr) => match self.run(instr).0 {
                Ok(extra) => (Ok((instr.cycles + extra) as u32), self.run(instr).1),
                Err(PpuError::CharRomWrite { addr }) => (
                    Err(CpuError { kind: Fault::IllegalWrite, opcode: op, pc: self.regs.pc, addr }),
                    self.run(instr).1,
                ),
            },
        }
    }

    /// One step: takes the opcode byte at the program counter and executes
    /// the instruction it stands for.
    pub open spec fn step(self) -> (Result<u32, CpuError>, Machine) {
        self.next8().1.exec(self.next8().0)
    }
}

/// Takes the next byte of the instruction.
#[verifier::rlimit(100)]
fn next8(regs: &mut Registers, mem: &mut Memory) -> (val: u8)
    ensures
        (val, machine(*final(regs), final(mem)@)) == machine(*old(regs), old(mem)@).next8(),
{
    let pc = regs.bump();
    mem.read8(pc)
}

/// Takes the next two bytes of the instruction as a word.
#[verifier::rlimit(100)]
fn next16(regs: &mut Registers, mem: &mut Memory) -> (val: u16)
    ensures
        (val, machine(*final(regs), final(mem)@)) == machine(*old(regs), old(mem)@).next16(),
{
    let val = mem.read16(regs.pc);
    regs.pc = regs.pc.wrapping_add(2);
    val
}

/// Reads the word that a zero-page pointer holds.
#[verifier::rlimit(100)]
fn read16_zp(regs: &Registers, mem: &mut Memory, ptr: u8) -> (val: u16)
    ensures
        (val, machine(*regs, final(mem)@)) == machine(*regs, old(mem)@).read16_zp(ptr),
{
    let lo = mem.read8(ptr as u16);
    let hi = mem.read8(ptr.wrapping_add(1) as u16);
    make_word(lo, hi)
}

/// Moves an address by an index register and tells whether that left the
/// base's page.
fn index_by(base: u16, index: u8) -> (res: (u16, u32))
    ensures
        res == indexed(base, index),
{
    let addr = base.wrapping_add(index as u16);
    if addr / 256 == base / 256 {
        (addr, 0)
    } else {
        (addr, 1)
    }
}

/// The address a branch goes to.
fn relative_target(pc: u16, offset: u8) -> (target: u16)
    ensures
        target == branch_target(pc, offset),
{
    if offset < 0x80 {
        pc.wrapping_add(offset as u16)
    } else {
        pc.wrapping_sub(256 - offset as u16)
    }
}

/// Consumes the instruction bytes of an addressing mode and finds the
/// operand's address, without reading what is at that address.
#[verifier::rlimit(100)]
pub fn locate_operand(regs: &mut Registers, mem: &mut Memory, mode: AddressingMode) -> (operand:
    Operand)
    ensures
        (operand, machine(*final(regs), final(mem)@)) == machine(*old(regs), old(mem)@).locate(
            mode,
        ),
        operand.extra_cycle <= 1,
{
    match mode {
        AddressingMode::Implied => Operand { value: 0, addr: 0, extra_cycle: 0 },
        AddressingMode::Accumulator => Operand { value: regs.a, addr: 0, extra_cycle: 0 },
        AddressingMode::Immediate => {
            let value = next8(regs, mem);
            Operand { value, addr: 0, extra_cycle: 0 }
        },
        AddressingMode::Absolute => {
            let addr = next16(regs, mem);
            Operand { value: 0, addr, extra_cycle: 0 }
        },
        AddressingMode::ZeroPage => {
            let addr = next8(regs, mem) as u16;
            Operand { value: 0, addr, extra_cycle: 0 }
        },
        AddressingMode::ZeroPageX => {
            let addr = next8(regs, mem).wrapping_add(regs.x) as u16;
            Operand { value: 0, addr, extra_cycle: 0 }
        },
        AddressingMode::ZeroPageY => {
            let addr = next8(regs, mem).wrapping_add(regs.y) as u16;
            Operand { value: 0, addr, extra_cycle: 0 }
        },
        AddressingMode::AbsoluteX => {
            let base = next16(regs, mem);
            let (addr, extra_cycle) = index_by(base, regs.x);
            Operand { value: 0, addr, extra_cycle }
        },
        AddressingMode::AbsoluteY => {
            let base = next16(regs, mem);
            let (addr, extra_cycle) = index_by(base, regs.y);
            Operand { value: 0, addr, extra_cycle }
        },
        AddressingMode::Indirect => {
            let ptr = next16(regs, mem);
            let addr = mem.read16(ptr);
            Operand { value: 0, addr, extra_cycle: 0 }
        },
        AddressingMode::IndirectX => {
            let ptr = next8(regs, mem).wrapping_add(regs.x);
            let addr = read16_zp(regs, mem, ptr);
            Operand { value: 0, addr, extra_cycle: 0 }
        },
        AddressingMode::IndirectY => {
            let ptr = next8(regs, mem);
            let base = read16_zp(regs, mem, ptr);
            let (addr, extra_cycle) = index_by(base, regs.y);
            Operand { value: 0, addr, extra_cycle }
        },
        AddressingMode::Relative => {
            let value = next8(regs, mem);
            Operand { value, addr: relative_target(regs.pc, value), extra_cycle: 0 }
        },
    }
}

/// Resolves the operand of an addressing mode in full: value, address and
/// extra cycle.
#[verifier::rlimit(100)]
pub fn fetch_operand(regs: &mut Registers, mem: &mut Memory, mode: AddressingMode) -> (operand:
    Operand)
    ensures
        (operand, machine(*final(regs), final(mem)@)) == machine(
            *old(regs),
            old(mem)@,
        ).fetch_operand(mode),
        operand.extra_cycle <= 1,
{
    let found = locate_operand(regs, mem, mode);
    if mode.is_in_memory() {
        let value = mem.read8(found.addr);
        Operand { value, addr: found.addr, extra_cycle: found.extra_cycle }
    } else {
        found
    }
}

/// Pushes a byte onto the stack.
#[verifier::rlimit(100)]
pub fn push(regs: &mut Registers, mem: &mut Memory, val: u8)
    ensures
        machine(*final(regs), final(mem)@) == machine(*old(regs), old(mem)@).push(val),
        final(regs).wf(),
{
    let res = mem.write8(0x0100 + regs.sp % 256, val);
    assert(res is Ok);
    regs.sp = 0x0100 + regs.sp.wrapping_sub(1) % 256;
}

/// Pops a byte off the stack.
#[verifier::rlimit(100)]
pub fn pop(regs: &mut Registers, mem: &mut Memory) -> (val: u8)
    ensures
        (val, machine(*final(regs), final(mem)@)) == machine(*old(regs), old(mem)@).pop(),
        final(regs).wf(),
{
    regs.sp = 0x0100 + regs.sp.wrapping_add(1) % 256;
    mem.read8(regs.sp)
}

/// Pushes a word onto the stack, high byte first.
#[verifier::rlimit(100)]
pub fn push16(regs: &mut Registers, mem: &mut Memory, val: u16)
    ensures
        machine(*final(regs), final(mem)@) == machine(*old(regs), old(mem)@).push16(val),
        final(regs).wf(),
{
    push(regs, mem, hi(val));
    push(regs, mem, lo(val));
}

/// Pops a word off the stack, low byte first.
#[verifier::rlimit(100)]
pub fn pop16(regs: &mut Registers, mem: &mut Memory) -> (val: u16)
    ensures
        (val, machine(*final(regs), final(mem)@)) == machine(*old(regs), old(mem)@).pop16(),
        final(regs).wf(),
{
    let lo = pop(regs, mem);
    let hi = pop(regs, mem);
    make_word(lo, hi)
}

/// Returns from an interrupt: pops the flags, then the program counter.
#[verifier::rlimit(100)]
pub fn rti(regs: &mut Registers, mem: &mut Memory)
    ensures
        machine(*final(regs), final(mem)@) == machine(*old(regs), old(mem)@).rti(),
        final(regs).wf(),
{
    regs.psr = Psr::from_bits_truncate(pop(regs, mem));
    regs.pc = pop16(regs, mem);
}

/// Carries out a stack or jump operation.
#[verifier::rlimit(100)]
fn flow(regs: &mut Registers, mem: &mut Memory, opcode: Opcode, target: u16)
    ensures
        machine(*final(regs), final(mem)@) == machine(*old(regs), old(mem)@).flow(opcode, target),
{
    match opcode {
        Opcode::JMP => {
            regs.pc = target;
        },
        Opcode::JSR => {
            push16(regs, mem, regs.pc.wrapping_sub(1));
            regs.pc = target;
        },
        Opcode::RTS => {
            regs.pc = pop16(regs, mem).wrapping_add(1);
        },
        Opcode::RTI => rti(regs, mem),
        Opcode::BRK => {
            push16(regs, mem, regs.pc.wrapping_add(1));
            push(regs, mem, regs.psr.bits() | Psr::B);
            regs.psr.insert(Psr::I);
            regs.pc = mem.read16(BREAK_VECTOR);
        },
        Opcode::PHA => push(regs, mem, regs.a),
        Opcode::PHP => push(regs, mem, regs.psr.bits()),
        Opcode::PLA => {
            let val = pop(regs, mem);
            regs.a = val;
            regs.set_zn(val);
        },
        Opcode::PLP => {
            regs.psr = Psr::from_bits_truncate(pop(regs, mem));
        },
        _ => {},
    }
}

/// Carries out a branch and gives the extra cycles it costs.
fn branch(regs: &mut Registers, opcode: Opcode, target: u16) -> (extra: u32)
    ensures
        forall|bus: BusState|
            (extra, machine(*final(regs), bus)) == #[trigger] machine(*old(regs), bus).branch(
                opcode,
                target,
            ),
        extra <= 2,
{
    if branch_taken(regs, opcode) {
        let extra: u32 = if regs.pc / 256 == target / 256 {
            1
        } else {
            2
        };
        regs.pc = target;
        extra
    } else {
        0
    }
}

/// Carries out a decoded instruction and gives the cycles it takes beyond
/// its base count.
#[verifier::rlimit(100)]
fn run(regs: &mut Registers, mem: &mut Memory, instr: Instruction) -> (res: Result<u32, PpuError>)
    ensures
        (res, machine(*final(regs), final(mem)@)) == machine(*old(regs), old(mem)@).run(instr),
        res matches Ok(extra) ==> extra <= 2,
{
    match instr.opcode.classify() {
        Class::Read => {
            let operand = fetch_operand(regs, mem, instr.mode);
            read_op(regs, instr.opcode, operand.value);
            Ok(operand.extra_cycle)
        },
        Class::Store => {
            let operand = locate_operand(regs, mem, instr.mode);
            match mem.write8(operand.addr, store_op(regs, instr.opcode)) {
                Ok(_) => Ok(operand.extra_cycle),
                Err(e) => Err(e),
            }
        },
        Class::Modify => {
            let operand = fetch_operand(regs, mem, instr.mode);
            let mut after = *regs;
            let out = modify_op(&mut after, instr.opcode, operand.value);
            if instr.mode == AddressingMode::Accumulator {
                after.a = out;
                *regs = after;
                Ok(operand.extra_cycle)
            } else {
                match mem.write8(operand.addr, out) {
                    Ok(_) => {
                        *regs = after;
                        Ok(operand.extra_cycle)
                    },
                    Err(e) => Err(e),
                }
            }
        },
        Class::Register => {
            register_op(regs, instr.opcode);
            Ok(0)
        },
        Class::Branch => {
            let operand = fetch_operand(regs, mem, instr.mode);
            Ok(branch(regs, instr.opcode, operand.addr))
        },
        Class::Flow => {
            let operand = locate_operand(regs, mem, instr.mode);
            flow(regs, mem, instr.opcode, operand.addr);
            Ok(operand.extra_cycle)
        },
    }
}

/// Executes the instruction that the opcode byte `op` stands for. The
/// program counter must stand just past that byte. Gives the cycles the
/// instruction takes: its base count, one more where its addressing crosses
/// a page, and for a branch that is taken one or two more.
///
/// Fails with `UnknownOpcode`, and changes nothing, exactly when the byte
/// stands for no instruction; with `IllegalWrite` exactly when the
/// instruction's write is refused, which only a store or a
/// read-modify-write of memory can meet. Instructions other than branches,
/// jumps, calls, returns and breaks leave the program counter just past
/// their instruction bytes.
///
/// The module `laws` says what particular instructions and pairs of
/// instructions come to; a proof about a call of this function gets there by
/// calling the law, not by unfolding the whole model.
#[verifier::rlimit(100)]
pub fn exec(op: u8, regs: &mut Registers, mem: &mut Memory) -> (res: Result<u32, CpuError>)
    ensures
        (res, machine(*final(regs), final(mem)@)) == machine(*old(regs), old(mem)@).exec(op),
        Instruction::lookup(op) is None <==> res is Err && res->Err_0.kind == Fault::UnknownOpcode,
        Instruction::lookup(op) is None ==> *final(regs) == *old(regs) && final(mem)@ == old(
            mem,
        )@,
        res matches Ok(cycles) ==> 2 <= cycles <= 10,
        machine(*old(regs), old(mem)@).wf() ==> machine(*final(regs), final(mem)@).wf(),
        Instruction::lookup(op) matches Some(instr) ==> {
            &&& res is Err ==> instr.opcode.class() == Class::Store || (instr.opcode.class()
                == Class::Modify && instr.mode != AddressingMode::Accumulator)
            &&& res matches Ok(cycles) ==> instr.cycles <= cycles <= instr.cycles + 2
            &&& res matches Ok(cycles) ==> cycles == instr.cycles || instr.opcode.class()
                == Class::Branch || (instr.mode == AddressingMode::AbsoluteX && old(regs).x != 0)
                || (instr.mode.can_cross() && instr.mode != AddressingMode::AbsoluteX && old(
                regs,
            ).y != 0)
            &&& instr.opcode.class() != Class::Branch && instr.opcode.class() != Class::Flow
                ==> final(regs).pc == old(regs).pc.wrapping_add(instr.mode.operand_bytes())
        },
{
    proof {
        if machine(*regs, mem@).wf() {
            super::laws::lemma_exec_keeps_wf(machine(*regs, mem@), op);
        }
        super::laws::lemma_exec_summary(machine(*regs, mem@), op);
    }
    let pc = regs.pc;
    match Instruction::decode(op) {
        None => Err(CpuError { kind: Fault::UnknownOpcode, opcode: op, pc, addr: 0 }),
        Some(instr) => match run(regs, mem, instr) {
            Ok(extra) => Ok(instr.cycles + extra),
            Err(PpuError::CharRomWrite { addr }) => Err(
                CpuError { kind: Fault::IllegalWrite, opcode: op, pc, addr },
            ),
        },
    }
}

} // verus!
