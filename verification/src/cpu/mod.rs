//! The processor: its register file and the single-step driver.

pub mod mos6502;

use crate::cpu::mos6502::isa::{
    exec, machine, AddressingMode, Class, CpuError, Fault, Instruction,
};
use crate::cpu::mos6502::Registers;
use crate::mem::Memory;
use vstd::prelude::*;

verus! {

/// The processor as a mathematical value.
pub struct CpuState {
    pub regs: Registers,
    /// Cycles run so far, modulo 2^32.
    pub ticks: u32,
}

/// The processor: its registers and a count of the cycles it has run.
pub struct Cpu {
    regs: Registers,
    ticks: u32,
}

impl View for Cpu {
    type V = CpuState;

    closed spec fn view(&self) -> CpuState {
        CpuState { regs: self.regs, ticks: self.ticks }
    }
}

impl Cpu {
    /// A processor at power-on: registers at their power-on values, no cycle
    /// run yet.
    pub fn new() -> (cpu: Self)
        ensures
            cpu@ == (CpuState { regs: Registers::power_on(), ticks: 0 }),
            cpu@.regs.wf(),
    {
        Self { regs: Registers::new(), ticks: 0 }
    }

    /// Runs one instruction: takes the opcode byte at the program counter,
    /// moves the program counter past it, executes the instruction and gives
    /// the cycles it took, which are also added to the cycle count.
    ///
    /// An instruction that ends in a fatal condition adds nothing to the
    /// cycle count; registers and memory are then as execution left them.
    /// The step fails exactly when the byte stands for no instruction or the
    /// instruction's write is refused.
    #[verifier::rlimit(100)]
    pub fn step(&mut self, mem: &mut Memory) -> (res: Result<u8, CpuError>)
        ensures
            machine(final(self)@.regs, final(mem)@) == machine(old(self)@.regs, old(mem)@).step().1,
            match machine(old(self)@.regs, old(mem)@).step().0 {
                Ok(cycles) => {
                    &&& res == Ok::<u8, CpuError>(cycles as u8)
                    &&& 2 <= cycles <= 10
                    &&& final(self)@.ticks == old(self)@.ticks.wrapping_add(cycles)
                },
                Err(e) => res == Err::<u8, CpuError>(e) && final(self)@.ticks == old(self)@.ticks,
            },
            machine(old(self)@.regs, old(mem)@).wf() ==> machine(
                final(self)@.regs,
                final(mem)@,
            ).wf(),
            Instruction::lookup(machine(old(self)@.regs, old(mem)@).next8().0) is None ==> res
                is Err && res->Err_0.kind == Fault::UnknownOpcode,
            Instruction::lookup(
                machine(old(self)@.regs, old(mem)@).next8().0,
            ) matches Some(instr) ==> {
                &&& res is Err ==> res->Err_0.kind == Fault::IllegalWrite && (
                instr.opcode.class() == Class::Store || (instr.opcode.class() == Class::Modify
                    && instr.mode != AddressingMode::Accumulator))
                &&& res matches Ok(cycles) ==> instr.cycles <= cycles <= instr.cycles + 2
                &&& res matches Ok(cycles) ==> cycles == instr.cycles || instr.opcode.class()
                    == Class::Branch || (instr.mode == AddressingMode::AbsoluteX && old(
                    self,
                )@.regs.x != 0) || (instr.mode.can_cross() && instr.mode
                    != AddressingMode::AbsoluteX && old(self)@.regs.y != 0)
            },
    {
        proof {
            if machine(self@.regs, mem@).wf() {
                crate::cpu::mos6502::laws::lemma_step_keeps_wf(machine(self@.regs, mem@));
            }
            crate::cpu::mos6502::laws::lemma_step_summary(machine(self@.regs, mem@));
        }
        let pc = self.regs.bump();
        let op = mem.read8(pc);
        match exec(op, &mut self.regs, mem) {
            Ok(cycles) => {
                self.ticks = self.ticks.wrapping_add(cycles);
                Ok(cycles as u8)
            },
            Err(e) => Err(e),
        }
    }

    /// The registers, to look at.
    pub fn registers(&self) -> (regs: &Registers)
        ensures
            *regs == self@.regs,
    {
        &self.regs
    }

    /// The cycles run so far, modulo 2^32.
    pub fn ticks(&self) -> (ticks: u32)
        ensures
            ticks == self@.ticks,
    {
        self.ticks
    }
}

} // verus!
