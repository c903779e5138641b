//! What holds of instruction execution on every machine.
//!
//! The laws are stated over the model (`Machine`), which the executable
//! functions are proved to follow exactly, so each holds of the executable
//! functions too. The model is large: a proof that needs one of these facts
//! about a call of `exec` does well to call the law for it.

use super::isa::{
    branch_target, indexed, AddressingMode, Class, CpuError, Fault, Instruction, Machine, Opcode,
    Operand,
};
use crate::ppu::PpuError;
use super::{Psr, Registers};
use crate::bits::same_page;
use vstd::prelude::*;

verus! {

/// Indexing the zero page by X wraps within it: the operand's address is
/// the sum of the instruction byte and X modulo 256, and so lies in page zero
/// whatever the two are. No extra cycle is charged.
#[verifier::rlimit(100)]
pub proof fn lemma_zero_page_x_wraps(m: Machine)
    ensures
        m.fetch_operand(AddressingMode::ZeroPageX).0.addr == (m.next8().0 + m.regs.x) % 256,
        m.fetch_operand(AddressingMode::ZeroPageX).0.extra_cycle == 0,
{
}

/// Indexing the zero page by Y wraps within it in the same way.
#[verifier::rlimit(100)]
pub proof fn lemma_zero_page_y_wraps(m: Machine)
    ensures
        m.fetch_operand(AddressingMode::ZeroPageY).0.addr == (m.next8().0 + m.regs.y) % 256,
        m.fetch_operand(AddressingMode::ZeroPageY).0.extra_cycle == 0,
{
}

/// A byte pushed is the byte popped next, and the pair leaves the stack
/// pointer where it was.
#[verifier::rlimit(100)]
pub proof fn lemma_push_then_pop(m: Machine, val: u8)
    requires
        m.wf(),
    ensures
        m.push(val).pop().0 == val,
        m.push(val).pop().1.regs == m.regs,
        m.push(val).regs.wf(),
{
}

/// A word pushed is the word popped next, and the pair leaves the stack
/// pointer where it was.
#[verifier::rlimit(100)]
pub proof fn lemma_push16_then_pop16(m: Machine, val: u16)
    requires
        m.wf(),
    ensures
        m.push16(val).pop16().0 == val,
        m.push16(val).pop16().1.regs == m.regs,
{
    let hi = crate::bits::high_byte(val);
    let lo = crate::bits::low_byte(val);
    let one = m.push(hi);
    let two = one.push(lo);
    lemma_push_then_pop(m, hi);
    lemma_push_then_pop(one, lo);
}

/// Pulling the flags and pushing them again reproduces them: the byte pushed
/// is the byte pulled, in all eight bits, it lands where it was pulled from,
/// and the pair leaves memory and the stack pointer as they were.
#[verifier::rlimit(100)]
pub proof fn lemma_pull_then_push_flags(m: Machine)
    requires
        m.wf(),
    ensures
        m.plp().regs.psr.bits == m.pop().0,
        m.plp().php().regs.psr.bits == m.pop().0,
        m.plp().php().regs.sp == m.regs.sp,
        m.plp().php().bus.ram =~= m.bus.ram,
        m.plp().php().bus.ppu == m.bus.ppu,
{
}

/// Pushing the flags and pulling them again leaves the registers as they
/// were.
#[verifier::rlimit(100)]
pub proof fn lemma_push_then_pull_flags(m: Machine)
    requires
        m.wf(),
    ensures
        m.php().plp().regs == m.regs,
{
    lemma_push_then_pop(m, m.regs.psr.bits);
}

/// A call and the return that follows it go on at the instruction after the
/// call, with the stack pointer where it was.
#[verifier::rlimit(100)]
pub proof fn lemma_call_then_return(m: Machine, target: u16)
    requires
        m.wf(),
    ensures
        m.jsr(target).regs.pc == target,
        m.jsr(target).rts().regs == m.regs,
{
    lemma_push16_then_pop16(m, m.regs.pc.wrapping_sub(1));
}

/// A branch that is taken costs exactly one cycle more than the same branch
/// not taken, as long as its target lies in the page of the instruction that
/// follows it; a target in another page costs one cycle more again.
#[verifier::rlimit(100)]
pub proof fn lemma_branch_taken_costs_one_more(
    taken: Machine,
    not_taken: Machine,
    opcode: Opcode,
    target: u16,
)
    requires
        taken.regs.branch_taken(opcode),
        !not_taken.regs.branch_taken(opcode),
    ensures
        not_taken.branch(opcode, target) == (0u32, not_taken),
        same_page(taken.regs.pc, target) ==> taken.branch(opcode, target).0
            == not_taken.branch(opcode, target).0 + 1,
        !same_page(taken.regs.pc, target) ==> taken.branch(opcode, target).0
            == not_taken.branch(opcode, target).0 + 2,
        taken.branch(opcode, target).1 == taken.jump(target),
{
}

/// Every opcode byte that stands for a branch uses relative addressing and
/// has a base count of two cycles.
#[verifier::rlimit(100)]
pub proof fn lemma_branches_are_relative(op: u8)
    ensures
        Instruction::lookup(op) matches Some(instr) ==> (instr.opcode.class() == Class::Branch
            <==> instr.mode == AddressingMode::Relative),
        Instruction::lookup(op) matches Some(instr) ==> (instr.opcode.class() == Class::Branch
            ==> instr.cycles == 2),
{
}

/// Every opcode byte that stands for an operation on the registers alone
/// has no operand.
#[verifier::rlimit(100)]
pub proof fn lemma_register_ops_are_implied(op: u8)
    ensures
        Instruction::lookup(op) matches Some(instr) ==> (instr.opcode.class() == Class::Register
            ==> instr.mode == AddressingMode::Implied),
{
}

/// The cycles that executing a branch opcode reports: two when the branch is
/// not taken, three when it is taken within the page of the instruction that
/// follows it, four when it is taken into another page. The condition is that
/// of the machine's registers, and the target is reckoned from the address
/// after the offset byte.
#[verifier::rlimit(100)]
pub proof fn lemma_branch_cycles(m: Machine, op: u8)
    requires
        Instruction::lookup(op) matches Some(instr) && instr.opcode.class() == Class::Branch,
    ensures
        ({
            let opcode = Instruction::lookup(op)->Some_0.opcode;
            let next = m.regs.pc.wrapping_add(1);
            let target = branch_target(next, m.next8().0);
            m.exec(op).0 == Ok::<u32, CpuError>(
                if !m.regs.branch_taken(opcode) {
                    2u32
                } else if same_page(next, target) {
                    3u32
                } else {
                    4u32
                },
            )
        }),
{
    lemma_branches_are_relative(op);
}

/// An opcode byte fails as unknown exactly when the table holds no
/// instruction for it, and then nothing changes. Every instruction of the
/// table is carried out: the only other failure is a refused write.
#[verifier::rlimit(100)]
pub proof fn lemma_failures(m: Machine, op: u8)
    ensures
        Instruction::lookup(op) is None ==> m.exec(op) == (
            Err::<u32, CpuError>(
                CpuError { kind: Fault::UnknownOpcode, opcode: op, pc: m.regs.pc, addr: 0 },
            ),
            m,
        ),
        Instruction::lookup(op) matches Some(instr) ==> (m.exec(op).0 is Ok <==> m.run(instr).0
            is Ok),
        m.exec(op).0 matches Err(e) ==> e.opcode == op && e.pc == m.regs.pc && (e.kind
            == Fault::UnknownOpcode <==> Instruction::lookup(op) is None),
{
}

/// Only a write can be refused: an instruction that fails belongs to a class
/// that writes memory, and is not aimed at the accumulator.
#[verifier::rlimit(100)]
pub proof fn lemma_only_writes_are_refused(m: Machine, instr: Instruction)
    ensures
        m.run(instr).0 is Err ==> instr.opcode.class() == Class::Store || (instr.opcode.class()
            == Class::Modify && instr.mode != AddressingMode::Accumulator),
{
}

/// Reads and writes over the bus keep a well-formed machine well formed.
#[verifier::rlimit(100)]
pub proof fn lemma_accesses_keep_wf(m: Machine, addr: u16, ptr: u8, val: u8)
    requires
        m.wf(),
    ensures
        m.read8(addr).1.wf(),
        m.read16(addr).1.wf(),
        m.read16_zp(ptr).1.wf(),
        m.write8(addr, val).1.wf(),
        m.next8().1.wf(),
        m.next16().1.wf(),
        m.read8(addr).1.regs == m.regs,
        m.read16(addr).1.regs == m.regs,
        m.read16_zp(ptr).1.regs == m.regs,
        m.write8(addr, val).1.regs == m.regs,
        m.next8().1.regs.sp == m.regs.sp,
        m.next16().1.regs.sp == m.regs.sp,
{
    crate::mem::lemma_accesses_keep_wf(m.bus, addr, val);
    crate::mem::lemma_accesses_keep_wf(m.bus, m.regs.pc, val);
    crate::mem::lemma_accesses_keep_wf(m.bus, ptr as u16, val);
    crate::mem::lemma_accesses_keep_wf(
        m.bus.read8(ptr as u16).1,
        ptr.wrapping_add(1) as u16,
        val,
    );
}

/// Resolving an operand keeps a well-formed machine well formed.
#[verifier::rlimit(100)]
pub proof fn lemma_operand_keeps_wf(m: Machine, mode: AddressingMode)
    requires
        m.wf(),
    ensures
        m.locate(mode).1.wf(),
        m.fetch_operand(mode).1.wf(),
{
    lemma_accesses_keep_wf(m, 0, 0, 0);
    let (byte, after8) = m.next8();
    let (word, after16) = m.next16();
    match mode {
        AddressingMode::Indirect => {
            lemma_accesses_keep_wf(after16, word, 0, 0);
        },
        AddressingMode::IndirectX => {
            lemma_accesses_keep_wf(after8, 0, byte.wrapping_add(m.regs.x), 0);
        },
        AddressingMode::IndirectY => {
            lemma_accesses_keep_wf(after8, 0, byte, 0);
        },
        _ => {},
    }
    let (found, located) = m.locate(mode);
    lemma_accesses_keep_wf(located, found.addr, 0, 0);
}

/// Pushes and pops keep a well-formed machine well formed; whatever the
/// stack pointer was, they leave it in the stack page.
#[verifier::rlimit(100)]
pub proof fn lemma_stack_keeps_wf(m: Machine, val: u8, word: u16)
    requires
        m.bus.wf(),
    ensures
        m.push(val).wf(),
        m.pop().1.wf(),
        m.push16(word).wf(),
        m.pop16().1.wf(),
{
    crate::mem::lemma_accesses_keep_wf(m.bus, Machine::stack_addr(m.regs.sp as int), val);
    crate::mem::lemma_accesses_keep_wf(m.bus, Machine::stack_addr(m.regs.sp + 1), val);
    let pushed = m.push(crate::bits::high_byte(word));
    crate::mem::lemma_accesses_keep_wf(
        pushed.bus,
        Machine::stack_addr(pushed.regs.sp as int),
        crate::bits::low_byte(word),
    );
    let popped = m.pop().1;
    crate::mem::lemma_accesses_keep_wf(popped.bus, Machine::stack_addr(popped.regs.sp + 1), val);
}

/// Stack and jump operations keep a well-formed machine well formed.
#[verifier::rlimit(100)]
pub proof fn lemma_flow_keeps_wf(m: Machine, opcode: Opcode, target: u16)
    requires
        m.wf(),
    ensures
        m.flow(opcode, target).wf(),
{
    match opcode {
        Opcode::JSR => {
            lemma_stack_keeps_wf(m, 0, m.regs.pc.wrapping_sub(1));
        },
        Opcode::RTS => {
            lemma_stack_keeps_wf(m, 0, 0);
        },
        Opcode::RTI => {
            lemma_stack_keeps_wf(m, 0, 0);
            let (bits, popped) = m.pop();
            let pulled = popped.with_regs(Registers { psr: Psr { bits }, ..popped.regs });
            lemma_stack_keeps_wf(pulled, 0, 0);
        },
        Opcode::BRK => {
            lemma_stack_keeps_wf(m, 0, m.regs.pc.wrapping_add(1));
            let one = m.push16(m.regs.pc.wrapping_add(1));
            lemma_stack_keeps_wf(one, m.regs.psr.with(Psr::B, true).bits, 0);
            let two = one.push(m.regs.psr.with(Psr::B, true).bits);
            let masked = two.with_regs(two.regs.with_flag(Psr::I, true));
            lemma_accesses_keep_wf(masked, super::isa::BREAK_VECTOR, 0, 0);
        },
        Opcode::PHA => {
            lemma_stack_keeps_wf(m, m.regs.a, 0);
        },
        Opcode::PHP => {
            lemma_stack_keeps_wf(m, m.regs.psr.bits, 0);
        },
        Opcode::PLA => {
            lemma_stack_keeps_wf(m, 0, 0);
        },
        Opcode::PLP => {
            lemma_stack_keeps_wf(m, 0, 0);
        },
        _ => {},
    }
}

/// Operations on the registers leave the stack pointer in the stack page.
#[verifier::rlimit(100)]
pub proof fn lemma_register_ops_keep_wf(regs: Registers, opcode: Opcode, val: u8)
    requires
        regs.wf(),
    ensures
        regs.read_op(opcode, val).wf(),
        regs.modify_op(opcode, val).1.wf(),
        regs.register_op(opcode).wf(),
{
}

/// Carrying out a decoded instruction keeps a well-formed machine well
/// formed.
#[verifier::rlimit(100)]
pub proof fn lemma_run_keeps_wf(m: Machine, instr: Instruction)
    requires
        m.wf(),
    ensures
        m.run(instr).1.wf(),
{
    lemma_operand_keeps_wf(m, instr.mode);
    let (found, located) = m.locate(instr.mode);
    let (operand, fetched) = m.fetch_operand(instr.mode);
    lemma_register_ops_keep_wf(fetched.regs, instr.opcode, operand.value);
    match instr.opcode.class() {
        Class::Read => {},
        Class::Store => {
            lemma_accesses_keep_wf(located, found.addr, 0, located.regs.store_op(instr.opcode));
        },
        Class::Modify => {
            let (out, regs) = fetched.regs.modify_op(instr.opcode, operand.value);
            lemma_accesses_keep_wf(fetched, operand.addr, 0, out);
        },
        Class::Register => {
            lemma_register_ops_keep_wf(m.regs, instr.opcode, 0);
        },
        Class::Branch => {},
        Class::Flow => {
            lemma_flow_keeps_wf(located, instr.opcode, found.addr);
        },
    }
}

/// Executing an instruction keeps a well-formed machine well formed: the
/// stack pointer stays in the stack page, the memories keep their sizes and
/// the video address keeps to 14 bits.
#[verifier::rlimit(100)]
pub proof fn lemma_exec_keeps_wf(m: Machine, op: u8)
    requires
        m.wf(),
    ensures
        m.exec(op).1.wf(),
{
    let decoded = Instruction::lookup(op);
    if decoded is Some {
        lemma_run_keeps_wf(m, decoded->Some_0);
    }
}

/// A step keeps a well-formed machine well formed.
#[verifier::rlimit(100)]
pub proof fn lemma_step_keeps_wf(m: Machine)
    requires
        m.wf(),
    ensures
        m.step().1.wf(),
{
    lemma_accesses_keep_wf(m, 0, 0, 0);
    lemma_exec_keeps_wf(m.next8().1, m.next8().0);
}

/// What carrying out an instruction without an operand comes to: it costs
/// no cycle beyond its base count, cannot fail, and does to the machine what
/// its operation does, on the registers alone or as a stack operation or
/// return.
#[verifier::rlimit(100)]
pub proof fn lemma_run_implied(m: Machine, instr: Instruction)
    requires
        instr.mode == AddressingMode::Implied,
    ensures
        instr.opcode.class() == Class::Register ==> m.run(instr) == (
            Ok::<u32, PpuError>(0),
            m.with_regs(m.regs.register_op(instr.opcode)),
        ),
        instr.opcode.class() == Class::Flow ==> m.run(instr) == (
            Ok::<u32, PpuError>(0),
            m.flow(instr.opcode, 0),
        ),
{
}

/// Executing the pull of the flags takes 4 cycles, executing their push 3;
/// neither can fail, and each does what the stack operation does.
#[verifier::rlimit(100)]
pub proof fn lemma_exec_flag_stack_ops(m: Machine)
    ensures
        m.exec(0x28) == (Ok::<u32, CpuError>(4), m.plp()),
        m.exec(0x08) == (Ok::<u32, CpuError>(3), m.php()),
{
    let pull = Instruction { mode: AddressingMode::Implied, opcode: Opcode::PLP, cycles: 4 };
    let push = Instruction { mode: AddressingMode::Implied, opcode: Opcode::PHP, cycles: 3 };
    assert(Instruction::lookup(0x28) == Some(pull));
    assert(Instruction::lookup(0x08) == Some(push));
    lemma_run_implied(m, pull);
    lemma_run_implied(m, push);
    assert(m.run(pull) == (Ok::<u32, PpuError>(0), m.plp()));
    assert(m.run(push) == (Ok::<u32, PpuError>(0), m.php()));
}

/// Executing the pull of the flags and then their push reproduces the
/// flags: the byte pushed is the byte pulled, in all eight bits, it lands
/// where it was pulled from, and the two instructions leave memory and the
/// stack pointer as they were.
#[verifier::rlimit(100)]
pub proof fn lemma_exec_pull_then_push_flags(m: Machine)
    requires
        m.wf(),
    ensures
        ({
            let pulled = m.exec(0x28).1;
            let pushed = pulled.exec(0x08).1;
            &&& m.exec(0x28).0 == Ok::<u32, CpuError>(4)
            &&& pulled.exec(0x08).0 == Ok::<u32, CpuError>(3)
            &&& pulled.regs.psr.bits == m.pop().0
            &&& pushed.regs.psr.bits == m.pop().0
            &&& pushed.regs.sp == m.regs.sp
            &&& pushed.bus.ram =~= m.bus.ram
            &&& pushed.bus.ppu == m.bus.ppu
        }),
{
    lemma_exec_flag_stack_ops(m);
    lemma_exec_flag_stack_ops(m.plp());
    lemma_pull_then_push_flags(m);
}

/// Executing a return from a call or from an interrupt takes 6 cycles and
/// cannot fail.
#[verifier::rlimit(100)]
pub proof fn lemma_exec_return(m: Machine)
    ensures
        m.exec(0x60) == (Ok::<u32, CpuError>(6), m.rts()),
        m.exec(0x40) == (Ok::<u32, CpuError>(6), m.rti()),
{
    let rts = Instruction { mode: AddressingMode::Implied, opcode: Opcode::RTS, cycles: 6 };
    let rti = Instruction { mode: AddressingMode::Implied, opcode: Opcode::RTI, cycles: 6 };
    assert(Instruction::lookup(0x60) == Some(rts));
    assert(Instruction::lookup(0x40) == Some(rti));
    lemma_run_implied(m, rts);
    lemma_run_implied(m, rti);
}

/// The cycles that the fixed-time instructions report on every machine:
/// break 7, add-immediate 2, no-operation 2. The no-operation changes
/// nothing; add-immediate consumes one instruction byte.
#[verifier::rlimit(100)]
pub proof fn lemma_fixed_cycles(m: Machine)
    ensures
        m.exec(0x00) == (Ok::<u32, CpuError>(7), m.brk()),
        m.exec(0x69).0 == Ok::<u32, CpuError>(2),
        m.exec(0x69).1.regs.pc == m.regs.pc.wrapping_add(1),
        m.exec(0xea) == (Ok::<u32, CpuError>(2), m),
{
    let brk = Instruction { mode: AddressingMode::Implied, opcode: Opcode::BRK, cycles: 7 };
    let adc = Instruction { mode: AddressingMode::Immediate, opcode: Opcode::ADC, cycles: 2 };
    let nop = Instruction { mode: AddressingMode::Implied, opcode: Opcode::NOP, cycles: 2 };
    assert(Instruction::lookup(0x00) == Some(brk));
    assert(Instruction::lookup(0x69) == Some(adc));
    assert(Instruction::lookup(0xea) == Some(nop));
    lemma_run_implied(m, brk);
    lemma_run_implied(m, nop);
    lemma_run_read(m, adc);
}

/// Operations on the registers leave the program counter alone.
#[verifier::rlimit(100)]
pub proof fn lemma_register_ops_keep_pc(regs: Registers, opcode: Opcode, val: u8)
    ensures
        regs.read_op(opcode, val).pc == regs.pc,
        regs.modify_op(opcode, val).1.pc == regs.pc,
        regs.register_op(opcode).pc == regs.pc,
{
}

/// What carrying out an instruction that reads its operand comes to: it
/// cannot fail, costs the cycle of a page crossing and no other beyond its
/// base count, and works on the registers with the byte read.
#[verifier::rlimit(100)]
pub proof fn lemma_run_read(m: Machine, instr: Instruction)
    requires
        instr.opcode.class() == Class::Read,
    ensures
        m.run(instr) == (
            Ok::<u32, PpuError>(m.fetch_operand(instr.mode).0.extra_cycle),
            m.fetch_operand(instr.mode).1.with_regs(
                m.fetch_operand(instr.mode).1.regs.read_op(
                    instr.opcode,
                    m.fetch_operand(instr.mode).0.value,
                ),
            ),
        ),
        m.run(instr).1.regs.pc == m.fetch_operand(instr.mode).1.regs.pc,
        instr.mode == AddressingMode::Immediate ==> m.run(instr).0 == Ok::<u32, PpuError>(0)
            && m.run(instr).1.regs.pc == m.regs.pc.wrapping_add(1),
{
    let (operand, fetched) = m.fetch_operand(instr.mode);
    lemma_register_ops_keep_pc(fetched.regs, instr.opcode, operand.value);
}

/// What carrying out a read-modify-write instruction on memory comes to.
/// The operand is resolved in full; the instruction fails exactly when the
/// byte it writes back is refused, which takes the video data port as its
/// address and a video address in character ROM after the operand's read.
/// Otherwise it costs the cycle of a page crossing and no other beyond its
/// base count, and writes the modified byte back.
#[verifier::rlimit(100)]
pub proof fn lemma_run_modify(m: Machine, instr: Instruction)
    requires
        instr.opcode.class() == Class::Modify,
        instr.mode != AddressingMode::Accumulator,
    ensures
        ({
            let (operand, fetched) = m.fetch_operand(instr.mode);
            let (out, regs) = fetched.regs.modify_op(instr.opcode, operand.value);
            &&& m.run(instr).0 is Err <==> operand.addr == 0x2007 && fetched.bus.ppu.addr.raw
                <= 0x1fff
            &&& m.run(instr).0 is Err ==> m.run(instr).1 == fetched
            &&& m.run(instr).0 is Ok ==> m.run(instr).0 == Ok::<u32, PpuError>(
                operand.extra_cycle,
            ) && m.run(instr).1 == fetched.write8(operand.addr, out).1.with_regs(regs)
            &&& m.run(instr).1.regs.pc == fetched.regs.pc
        }),
{
    let (operand, fetched) = m.fetch_operand(instr.mode);
    lemma_register_ops_keep_pc(fetched.regs, instr.opcode, operand.value);
}

/// Resolving an absolute address indexed by X consumes two instruction
/// bytes and charges a cycle exactly when the index leaves the page of the
/// address in the instruction; with X at 0 no page is left.
#[verifier::rlimit(100)]
pub proof fn lemma_absolute_x_operand(m: Machine)
    ensures
        m.fetch_operand(AddressingMode::AbsoluteX).1.regs.pc == m.regs.pc.wrapping_add(2),
        m.fetch_operand(AddressingMode::AbsoluteX).0.addr == indexed(m.next16().0, m.regs.x).0,
        m.fetch_operand(AddressingMode::AbsoluteX).0.extra_cycle == indexed(
            m.next16().0,
            m.regs.x,
        ).1,
        m.regs.x == 0 ==> m.fetch_operand(AddressingMode::AbsoluteX).0.extra_cycle == 0,
{
}

/// The cycles that a shift left of memory indexed by X reports: 7, and 8
/// where the indexing crosses a page; with X at 0 no page is crossed. The
/// instruction consumes two instruction bytes. It fails only where the
/// write is refused, which takes the video data port as the address.
#[verifier::rlimit(100)]
pub proof fn lemma_asl_absolute_x_cycles(m: Machine)
    ensures
        m.exec(0x1e).1.regs.pc == m.regs.pc.wrapping_add(2),
        m.exec(0x1e).0 is Ok ==> m.exec(0x1e).0 == Ok::<u32, CpuError>(
            (7 + indexed(m.next16().0, m.regs.x).1) as u32,
        ),
        m.exec(0x1e).0 is Ok && m.regs.x == 0 ==> m.exec(0x1e).0 == Ok::<u32, CpuError>(7),
        m.exec(0x1e).0 is Err ==> indexed(m.next16().0, m.regs.x).0 == 0x2007,
        indexed(m.next16().0, m.regs.x).0 != 0x2007 ==> m.exec(0x1e).0 is Ok,
{
    let asl = Instruction { mode: AddressingMode::AbsoluteX, opcode: Opcode::ASL, cycles: 7 };
    assert(Instruction::lookup(0x1e) == Some(asl));
    lemma_run_modify(m, asl);
    lemma_absolute_x_operand(m);
}

/// A write to the zero page goes to RAM: it cannot fail, changes the one
/// cell that the address names and leaves registers and picture processor
/// alone.
#[verifier::rlimit(100)]
pub proof fn lemma_zero_page_write(m: Machine, at: u8, val: u8)
    requires
        m.bus.wf(),
    ensures
        m.write8(at as u16, val).0 is Ok,
        m.write8(at as u16, val).1.regs == m.regs,
        m.write8(at as u16, val).1.bus.ram == m.bus.ram.update(at as int, val),
        m.write8(at as u16, val).1.bus.ppu == m.bus.ppu,
{
}

/// What carrying out a store to the zero page comes to: it costs no cycle
/// beyond its base count, cannot fail, consumes one instruction byte and
/// puts the register's byte into the cell of RAM that the instruction byte
/// names, leaving every register but the program counter alone.
#[verifier::rlimit(100)]
pub proof fn lemma_run_zero_page_store(m: Machine, instr: Instruction)
    requires
        instr.opcode.class() == Class::Store,
        instr.mode == AddressingMode::ZeroPage,
        m.bus.wf(),
    ensures
        m.run(instr).0 == Ok::<u32, PpuError>(0),
        m.run(instr).1.regs == (Registers { pc: m.regs.pc.wrapping_add(1), ..m.regs }),
        m.run(instr).1.bus.ram == m.next8().1.bus.ram.update(
            m.next8().0 as int,
            m.regs.store_op(instr.opcode),
        ),
        m.run(instr).1.bus.ppu == m.next8().1.bus.ppu,
{
    let (at, after) = m.next8();
    crate::mem::lemma_accesses_keep_wf(m.bus, m.regs.pc, 0);
    lemma_zero_page_write(after, at, after.regs.store_op(instr.opcode));
}

/// Resolving an operand moves the program counter past the mode's
/// instruction bytes and changes no other register. It charges a cycle only
/// in the modes that index an address of any page, and none where the index
/// register is 0.
#[verifier::rlimit(100)]
pub proof fn lemma_operand_advances(m: Machine, mode: AddressingMode)
    ensures
        m.locate(mode).1.regs == (Registers {
            pc: m.regs.pc.wrapping_add(mode.operand_bytes()),
            ..m.regs
        }),
        m.fetch_operand(mode).1.regs == m.locate(mode).1.regs,
        m.fetch_operand(mode).0.extra_cycle == m.locate(mode).0.extra_cycle,
        m.locate(mode).0.extra_cycle <= 1,
        !mode.can_cross() ==> m.locate(mode).0.extra_cycle == 0,
        mode == AddressingMode::AbsoluteX && m.regs.x == 0 ==> m.locate(mode).0.extra_cycle == 0,
        mode != AddressingMode::AbsoluteX && m.regs.y == 0 ==> m.locate(mode).0.extra_cycle == 0,
{
}

/// What carrying out a store comes to: the operand's address is found
/// without a read, and the register's byte is written there. The store fails
/// exactly when that write is refused; the registers are then, as otherwise,
/// what finding the address left.
#[verifier::rlimit(100)]
pub proof fn lemma_run_store(m: Machine, instr: Instruction)
    requires
        instr.opcode.class() == Class::Store,
    ensures
        ({
            let (found, located) = m.locate(instr.mode);
            let written = located.write8(found.addr, located.regs.store_op(instr.opcode));
            &&& m.run(instr).1 == written.1
            &&& m.run(instr).1.regs == located.regs
            &&& m.run(instr).0 is Err <==> written.0 is Err
            &&& m.run(instr).0 is Ok ==> m.run(instr).0 == Ok::<u32, PpuError>(found.extra_cycle)
        }),
{
}

/// What carrying out a branch, a stack operation or a jump comes to: it
/// cannot fail; a branch costs what its outcome costs, the others what
/// finding their operand costs.
#[verifier::rlimit(100)]
pub proof fn lemma_run_branch_or_flow(m: Machine, instr: Instruction)
    requires
        instr.opcode.class() == Class::Branch || instr.opcode.class() == Class::Flow,
    ensures
        instr.opcode.class() == Class::Branch ==> m.run(instr).0 == Ok::<u32, PpuError>(
            m.fetch_operand(instr.mode).1.branch(
                instr.opcode,
                m.fetch_operand(instr.mode).0.addr,
            ).0,
        ),
        instr.opcode.class() == Class::Branch ==> m.run(instr).0->Ok_0 <= 2,
        instr.opcode.class() == Class::Flow ==> m.run(instr).0 == Ok::<u32, PpuError>(
            m.locate(instr.mode).0.extra_cycle,
        ),
{
}

/// What carrying out a read-modify-write of the accumulator comes to: it
/// cannot fail, costs no cycle beyond its base count and puts the modified
/// byte into the accumulator.
#[verifier::rlimit(100)]
pub proof fn lemma_run_modify_accumulator(m: Machine, instr: Instruction)
    requires
        instr.opcode.class() == Class::Modify,
        instr.mode == AddressingMode::Accumulator,
    ensures
        m.run(instr) == (
            Ok::<u32, PpuError>(0),
            m.with_regs(
                Registers {
                    a: m.regs.modify_op(instr.opcode, m.regs.a).0,
                    ..m.regs.modify_op(instr.opcode, m.regs.a).1
                },
            ),
        ),
        m.run(instr).1.regs.pc == m.regs.pc,
{
    lemma_register_ops_keep_pc(m.regs, instr.opcode, m.regs.a);
}

/// What holds of every instruction carried out.
///
/// It can fail only where it writes memory. It costs at most two cycles
/// beyond its base count, and none unless it is a branch or its addressing
/// indexes an address into another page, which an index register of 0 never
/// does. Unless it is a branch, a jump, a call, a return or a break, it
/// leaves the program counter just past its instruction bytes.
#[verifier::rlimit(100)]
pub proof fn lemma_run_summary(m: Machine, instr: Instruction)
    requires
        instr.opcode.class() == Class::Register ==> instr.mode == AddressingMode::Implied,
    ensures
        m.run(instr).0 is Err ==> instr.opcode.class() == Class::Store || (instr.opcode.class()
            == Class::Modify && instr.mode != AddressingMode::Accumulator),
        m.run(instr).0 matches Ok(extra) ==> extra <= 2,
        m.run(instr).0 matches Ok(extra) ==> extra == 0 || instr.opcode.class() == Class::Branch
            || instr.mode.can_cross(),
        m.run(instr).0 matches Ok(extra) ==> extra == 0 || instr.opcode.class() == Class::Branch
            || (instr.mode == AddressingMode::AbsoluteX && m.regs.x != 0) || (instr.mode
            != AddressingMode::AbsoluteX && m.regs.y != 0),
        instr.opcode.class() != Class::Branch && instr.opcode.class() != Class::Flow
            ==> m.run(instr).1.regs.pc == m.regs.pc.wrapping_add(instr.mode.operand_bytes()),
{
    lemma_operand_advances(m, instr.mode);
    match instr.opcode.class() {
        Class::Read => {
            lemma_run_read(m, instr);
        },
        Class::Store => {
            lemma_run_store(m, instr);
        },
        Class::Modify => {
            if instr.mode == AddressingMode::Accumulator {
                lemma_run_modify_accumulator(m, instr);
            } else {
                lemma_run_modify(m, instr);
            }
        },
        Class::Register => {
            lemma_run_implied(m, instr);
            lemma_register_ops_keep_pc(m.regs, instr.opcode, 0);
        },
        Class::Branch => {
            lemma_run_branch_or_flow(m, instr);
        },
        Class::Flow => {
            lemma_run_branch_or_flow(m, instr);
        },
    }
}

/// What holds of every instruction executed.
///
/// It can fail only where it writes memory. It takes its base count of
/// cycles and at most two more; it takes more only if it is a branch or its
/// addressing indexes an address into another page, which an index register
/// of 0 never does. Unless it is a branch, a jump, a call, a return or a
/// break, it leaves the program counter just past its instruction bytes.
#[verifier::rlimit(100)]
pub proof fn lemma_exec_summary(m: Machine, op: u8)
    ensures
        Instruction::lookup(op) matches Some(instr) ==> {
            &&& m.exec(op).0 is Err ==> instr.opcode.class() == Class::Store || (
            instr.opcode.class() == Class::Modify && instr.mode != AddressingMode::Accumulator)
            &&& m.exec(op).0 matches Ok(cycles) ==> instr.cycles <= cycles <= instr.cycles + 2
            &&& m.exec(op).0 matches Ok(cycles) ==> cycles == instr.cycles || instr.opcode.class()
                == Class::Branch || (instr.mode == AddressingMode::AbsoluteX && m.regs.x != 0) || (
            instr.mode.can_cross() && instr.mode != AddressingMode::AbsoluteX && m.regs.y != 0)
            &&& instr.opcode.class() != Class::Branch && instr.opcode.class() != Class::Flow
                ==> m.exec(op).1.regs.pc == m.regs.pc.wrapping_add(instr.mode.operand_bytes())
        },
{
    let decoded = Instruction::lookup(op);
    if decoded is Some {
        let instr = decoded->Some_0;
        lemma_register_ops_are_implied(op);
        Instruction::lemma_table_follows_timing(op);
        assert(instr.cycles <= 8);
        lemma_run_summary(m, instr);
        assert(m.exec(op).1 == m.run(instr).1);
        assert(m.exec(op).0 is Err <==> m.run(instr).0 is Err);
        assert(m.run(instr).0 matches Ok(extra) ==> m.exec(op).0 == Ok::<u32, CpuError>(
            (instr.cycles + extra) as u32,
        ));
    }
}

/// What holds of every step: what holds of executing the instruction that
/// the byte at the program counter stands for. A byte that stands for none
/// fails the step; an instruction fails it only where it writes memory; and
/// a step that succeeds takes the instruction's base count of cycles and at
/// most two more, more only for a branch or for indexing into another page.
#[verifier::rlimit(100)]
pub proof fn lemma_step_summary(m: Machine)
    ensures
        Instruction::lookup(m.next8().0) is None ==> m.step().0 is Err && m.step().0->Err_0.kind
            == Fault::UnknownOpcode,
        Instruction::lookup(m.next8().0) matches Some(instr) ==> {
            &&& m.step().0 is Err ==> m.step().0->Err_0.kind == Fault::IllegalWrite && (
            instr.opcode.class() == Class::Store || (instr.opcode.class() == Class::Modify
                && instr.mode != AddressingMode::Accumulator))
            &&& m.step().0 matches Ok(cycles) ==> instr.cycles <= cycles <= instr.cycles + 2
            &&& m.step().0 matches Ok(cycles) ==> cycles == instr.cycles || instr.opcode.class()
                == Class::Branch || (instr.mode == AddressingMode::AbsoluteX && m.regs.x != 0) || (
            instr.mode.can_cross() && instr.mode != AddressingMode::AbsoluteX && m.regs.y != 0)
        },
{
    let (op, fetched) = m.next8();
    lemma_exec_summary(fetched, op);
    lemma_failures(fetched, op);
}

} // verus!
