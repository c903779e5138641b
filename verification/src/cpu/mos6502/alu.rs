//! What the operations do to the registers, apart from any access to memory.
//!
//! Arithmetic is binary whatever the decimal flag says: this processor has no
//! decimal mode.

use super::isa::Opcode;
use super::{Psr, Registers};
use crate::bits::{has_flag, low_byte, signed};
use vstd::prelude::*;

verus! {

impl Registers {
    /// The carry flag as a number.
    pub open spec fn carry_in(self) -> int {
        if self.flag(Psr::C) {
            1
        } else {
            0
        }
    }

    /// The accumulator takes a value; zero and negative follow it.
    pub open spec fn load_a(self, val: u8) -> Registers {
        Registers { a: val, ..self }.with_zn(val)
    }

    /// X takes a value; zero and negative follow it.
    pub open spec fn load_x(self, val: u8) -> Registers {
        Registers { x: val, ..self }.with_zn(val)
    }

    /// Y takes a value; zero and negative follow it.
    pub open spec fn load_y(self, val: u8) -> Registers {
        Registers { y: val, ..self }.with_zn(val)
    }

    /// Add with carry: the accumulator becomes the sum of itself, the
    /// operand and the carry, modulo 256. Carry is set when the sum passes
    /// 255, overflow when the sum of the same bytes read as signed numbers
    /// leaves -128..=127.
    pub open spec fn adc(self, m: u8) -> Registers {
        let sum = self.a + m + self.carry_in();
        let signed_sum = signed(self.a) + signed(m) + self.carry_in();
        let out = (sum % 256) as u8;
        Registers { a: out, ..self }.with_flag(Psr::C, sum > 255).with_flag(
            Psr::V,
            signed_sum < -128 || signed_sum > 127,
        ).with_zn(out)
    }

    /// Subtract with borrow: the accumulator becomes itself less the operand
    /// less one if carry is clear, modulo 256. Carry is set when nothing had
    /// to be borrowed, overflow when the same difference of signed numbers
    /// leaves -128..=127.
    pub open spec fn sbc(self, m: u8) -> Registers {
        let diff = self.a - m - (1 - self.carry_in());
        let signed_diff = signed(self.a) - signed(m) - (1 - self.carry_in());
        let out = (diff % 256) as u8;
        Registers { a: out, ..self }.with_flag(Psr::C, diff >= 0).with_flag(
            Psr::V,
            signed_diff < -128 || signed_diff > 127,
        ).with_zn(out)
    }

    /// Bitwise and into the accumulator.
    pub open spec fn and(self, m: u8) -> Registers {
        self.load_a(self.a & m)
    }

    /// Bitwise exclusive or into the accumulator.
    pub open spec fn eor(self, m: u8) -> Registers {
        self.load_a(self.a ^ m)
    }

    /// Bitwise or into the accumulator.
    pub open spec fn ora(self, m: u8) -> Registers {
        self.load_a(self.a | m)
    }

    /// Comparison of a register's value with the operand: carry is set when
    /// the register is not below the operand; zero and negative follow their
    /// difference modulo 256.
    pub open spec fn compare(self, reg: u8, m: u8) -> Registers {
        self.with_flag(Psr::C, reg >= m).with_zn(((reg - m) % 256) as u8)
    }

    /// Bit test: zero is set when accumulator and operand share no bit;
    /// overflow and negative copy bits 6 and 7 of the operand.
    pub open spec fn bit(self, m: u8) -> Registers {
        self.with_flag(Psr::Z, self.a & m == 0).with_flag(Psr::V, has_flag(m, 0x40)).with_flag(
            Psr::N,
            m >= 0x80,
        )
    }

    /// Load accumulator and X together.
    pub open spec fn lax(self, m: u8) -> Registers {
        Registers { a: m, x: m, ..self }.with_zn(m)
    }

    /// And, then shift the accumulator right by one bit.
    pub open spec fn alr(self, m: u8) -> Registers {
        let masked = self.a & m;
        Registers { a: masked / 2, ..self }.with_flag(Psr::C, masked % 2 == 1).with_zn(masked / 2)
    }

    /// And, then copy the negative flag into carry.
    pub open spec fn anc(self, m: u8) -> Registers {
        self.and(m).with_flag(Psr::C, self.a & m >= 0x80)
    }

    /// And, then rotate the accumulator right by one bit through carry. Carry
    /// becomes bit 6 of the result, overflow whether bits 6 and 5 differ.
    pub open spec fn arr(self, m: u8) -> Registers {
        let out = ((self.a & m) / 2 + 128 * self.carry_in()) as u8;
        Registers { a: out, ..self }.with_zn(out).with_flag(Psr::C, has_flag(out, 0x40)).with_flag(
            Psr::V,
            has_flag(out, 0x40) != has_flag(out, 0x20),
        )
    }

    /// X becomes accumulator-and-X less the operand, modulo 256, with the
    /// flags of a comparison.
    pub open spec fn axs(self, m: u8) -> Registers {
        let masked = self.a & self.x;
        let out = ((masked - m) % 256) as u8;
        Registers { x: out, ..self }.with_flag(Psr::C, masked >= m).with_zn(out)
    }

    /// What an operation that reads its operand does with the byte `m`.
    /// Operations that only read and discard leave the registers alone.
    pub open spec fn read_op(self, opcode: Opcode, m: u8) -> Registers {
        match opcode {
            Opcode::ADC => self.adc(m),
            Opcode::SBC => self.sbc(m),
            Opcode::AND => self.and(m),
            Opcode::EOR => self.eor(m),
            Opcode::ORA => self.ora(m),
            Opcode::LDA => self.load_a(m),
            Opcode::LDX => self.load_x(m),
            Opcode::LDY => self.load_y(m),
            Opcode::CMP => self.compare(self.a, m),
            Opcode::CPX => self.compare(self.x, m),
            Opcode::CPY => self.compare(self.y, m),
            Opcode::BIT => self.bit(m),
            Opcode::LAX => self.lax(m),
            Opcode::ALR => self.alr(m),
            Opcode::ANC => self.anc(m),
            Opcode::ARR => self.arr(m),
            Opcode::AXS => self.axs(m),
            _ => self,
        }
    }

    /// Shift left by one bit: the byte that results, and the registers with
    /// carry taking the bit shifted out.
    pub open spec fn asl(self, v: u8) -> (u8, Registers) {
        let out = ((2 * v) % 256) as u8;
        (out, self.with_flag(Psr::C, v >= 0x80).with_zn(out))
    }

    /// Shift right by one bit.
    pub open spec fn lsr(self, v: u8) -> (u8, Registers) {
        let out = v / 2;
        (out, self.with_flag(Psr::C, v % 2 == 1).with_zn(out))
    }

    /// Rotate left by one bit through carry.
    pub open spec fn rol(self, v: u8) -> (u8, Registers) {
        let out = ((2 * v + self.carry_in()) % 256) as u8;
        (out, self.with_flag(Psr::C, v >= 0x80).with_zn(out))
    }

    /// Rotate right by one bit through carry.
    pub open spec fn ror(self, v: u8) -> (u8, Registers) {
        let out = (v / 2 + 128 * self.carry_in()) as u8;
        (out, self.with_flag(Psr::C, v % 2 == 1).with_zn(out))
    }

    /// Increment a byte, wrapping at 256.
    pub open spec fn inc(self, v: u8) -> (u8, Registers) {
        let out = ((v + 1) % 256) as u8;
        (out, self.with_zn(out))
    }

    /// Decrement a byte, wrapping at 0.
    pub open spec fn dec(self, v: u8) -> (u8, Registers) {
        let out = ((v - 1) % 256) as u8;
        (out, self.with_zn(out))
    }

    /// What a read-modify-write operation makes of the byte `v`: the byte to
    /// write back, and the registers after the operation. The undocumented
    /// operations modify the byte and then combine it with the accumulator.
    pub open spec fn modify_op(self, opcode: Opcode, v: u8) -> (u8, Registers) {
        match opcode {
            Opcode::ASL => self.asl(v),
            Opcode::LSR => self.lsr(v),
            Opcode::ROL => self.rol(v),
            Opcode::ROR => self.ror(v),
            Opcode::INC => self.inc(v),
            Opcode::DEC => self.dec(v),
            Opcode::SLO => (self.asl(v).0, self.asl(v).1.ora(self.asl(v).0)),
            Opcode::RLA => (self.rol(v).0, self.rol(v).1.and(self.rol(v).0)),
            Opcode::SRE => (self.lsr(v).0, self.lsr(v).1.eor(self.lsr(v).0)),
            Opcode::RRA => (self.ror(v).0, self.ror(v).1.adc(self.ror(v).0)),
            Opcode::DCP => (self.dec(v).0, self.compare(self.a, self.dec(v).0)),
            Opcode::ISC => (self.inc(v).0, self.sbc(self.inc(v).0)),
            _ => (v, self),
        }
    }

    /// The byte that a store operation writes.
    pub open spec fn store_op(self, opcode: Opcode) -> u8 {
        match opcode {
            Opcode::STA => self.a,
            Opcode::STX => self.x,
            Opcode::STY => self.y,
            Opcode::SAX => self.a & self.x,
            _ => 0,
        }
    }

    /// What an operation without an operand does to the registers. Transfers
    /// set zero and negative from the value that arrives; the transfer to the
    /// stack pointer sets no flag.
    pub open spec fn register_op(self, opcode: Opcode) -> Registers {
        match opcode {
            Opcode::INX => self.load_x(self.inc(self.x).0),
            Opcode::INY => self.load_y(self.inc(self.y).0),
            Opcode::DEX => self.load_x(self.dec(self.x).0),
            Opcode::DEY => self.load_y(self.dec(self.y).0),
            Opcode::TAX => self.load_x(self.a),
            Opcode::TAY => self.load_y(self.a),
            Opcode::TXA => self.load_a(self.x),
            Opcode::TYA => self.load_a(self.y),
            Opcode::TSX => self.load_x(low_byte(self.sp)),
            Opcode::TXS => Registers { sp: (0x0100 + self.x) as u16, ..self },
            Opcode::SEC => self.with_flag(Psr::C, true),
            Opcode::SED => self.with_flag(Psr::D, true),
            Opcode::SEI => self.with_flag(Psr::I, true),
            Opcode::CLC => self.with_flag(Psr::C, false),
            Opcode::CLD => self.with_flag(Psr::D, false),
            Opcode::CLI => self.with_flag(Psr::I, false),
            Opcode::CLV => self.with_flag(Psr::V, false),
            _ => self,
        }
    }

    /// Whether a branch operation finds its condition met.
    pub open spec fn branch_taken(self, opcode: Opcode) -> bool {
        match opcode {
            Opcode::BCC => !self.flag(Psr::C),
            Opcode::BCS => self.flag(Psr::C),
            Opcode::BEQ => self.flag(Psr::Z),
            Opcode::BMI => self.flag(Psr::N),
            Opcode::BNE => !self.flag(Psr::Z),
            Opcode::BPL => !self.flag(Psr::N),
            Opcode::BVC => !self.flag(Psr::V),
            Opcode::BVS => self.flag(Psr::V),
            _ => false,
        }
    }
}

/// What addition leaves behind: the sum modulo 256 in the accumulator; carry
/// exactly when the sum passed 255; overflow exactly when the signed sum left
/// -128..=127; zero and negative as the accumulator has them; and nothing
/// else changed.
pub proof fn lemma_adc(regs: Registers, m: u8)
    ensures
        regs.adc(m).a == (regs.a + m + regs.carry_in()) % 256,
        regs.adc(m).flag(Psr::C) == (regs.a + m + regs.carry_in() > 255),
        regs.adc(m).flag(Psr::V) == !(-128 <= signed(regs.a) + signed(m) + regs.carry_in() <= 127),
        regs.adc(m).flag(Psr::Z) == (regs.adc(m).a == 0),
        regs.adc(m).flag(Psr::N) == (regs.adc(m).a >= 0x80),
        regs.adc(m).same_but_flags(
            Registers { a: regs.adc(m).a, ..regs },
            set![Psr::C, Psr::V, Psr::Z, Psr::N],
        ),
{
    let sum = regs.a + m + regs.carry_in();
    let signed_sum = signed(regs.a) + signed(m) + regs.carry_in();
    let out = (sum % 256) as u8;
    let loaded = Registers { a: out, ..regs };
    let carried = loaded.with_flag(Psr::C, sum > 255);
    let overflowed = carried.with_flag(Psr::V, signed_sum < -128 || signed_sum > 127);
    loaded.lemma_with_flag(Psr::C, sum > 255);
    carried.lemma_with_flag(Psr::V, signed_sum < -128 || signed_sum > 127);
    overflowed.lemma_with_zn(out);
}

/// What subtraction leaves behind: the difference modulo 256 in the
/// accumulator; carry exactly when nothing was borrowed; overflow exactly
/// when the signed difference left -128..=127; zero and negative as the
/// accumulator has them; and nothing else changed.
pub proof fn lemma_sbc(regs: Registers, m: u8)
    ensures
        regs.sbc(m).a == (regs.a - m - (1 - regs.carry_in())) % 256,
        regs.sbc(m).flag(Psr::C) == (regs.a - m - (1 - regs.carry_in()) >= 0),
        regs.sbc(m).flag(Psr::V) == !(-128 <= signed(regs.a) - signed(m) - (1 - regs.carry_in())
            <= 127),
        regs.sbc(m).flag(Psr::Z) == (regs.sbc(m).a == 0),
        regs.sbc(m).flag(Psr::N) == (regs.sbc(m).a >= 0x80),
        regs.sbc(m).same_but_flags(
            Registers { a: regs.sbc(m).a, ..regs },
            set![Psr::C, Psr::V, Psr::Z, Psr::N],
        ),
{
    let diff = regs.a - m - (1 - regs.carry_in());
    let signed_diff = signed(regs.a) - signed(m) - (1 - regs.carry_in());
    let out = (diff % 256) as u8;
    let loaded = Registers { a: out, ..regs };
    let carried = loaded.with_flag(Psr::C, diff >= 0);
    let overflowed = carried.with_flag(Psr::V, signed_diff < -128 || signed_diff > 127);
    loaded.lemma_with_flag(Psr::C, diff >= 0);
    carried.lemma_with_flag(Psr::V, signed_diff < -128 || signed_diff > 127);
    overflowed.lemma_with_zn(out);
}

/// What a comparison leaves behind: carry exactly when the register is not
/// below the operand, zero exactly when the two are equal, negative as the
/// top bit of their difference; and nothing else changed.
pub proof fn lemma_compare(regs: Registers, reg: u8, m: u8)
    ensures
        regs.compare(reg, m).flag(Psr::C) == (reg >= m),
        regs.compare(reg, m).flag(Psr::Z) == (reg == m),
        regs.compare(reg, m).flag(Psr::N) == ((reg - m) % 256 >= 0x80),
        regs.compare(reg, m).same_but_flags(regs, set![Psr::C, Psr::Z, Psr::N]),
{
    regs.lemma_with_flag(Psr::C, reg >= m);
    regs.with_flag(Psr::C, reg >= m).lemma_with_zn(((reg - m) % 256) as u8);
}

/// What a bit test leaves behind: zero exactly when accumulator and operand
/// share no bit, overflow and negative as bits 6 and 7 of the operand; and
/// nothing else changed.
pub proof fn lemma_bit(regs: Registers, m: u8)
    ensures
        regs.bit(m).flag(Psr::Z) == (regs.a & m == 0),
        regs.bit(m).flag(Psr::V) == has_flag(m, 0x40),
        regs.bit(m).flag(Psr::N) == has_flag(m, 0x80),
        regs.bit(m).same_but_flags(regs, set![Psr::Z, Psr::V, Psr::N]),
{
    let zero = regs.with_flag(Psr::Z, regs.a & m == 0);
    let overflow = zero.with_flag(Psr::V, has_flag(m, 0x40));
    regs.lemma_with_flag(Psr::Z, regs.a & m == 0);
    zero.lemma_with_flag(Psr::V, has_flag(m, 0x40));
    overflow.lemma_with_flag(Psr::N, m >= 0x80);
    crate::bits::lemma_byte(m);
}

/// What shifts and rotates leave behind: the byte moved by one bit, with the
/// old carry coming in where the operation rotates; carry as the bit that was
/// moved out; zero and negative as the result has them; and nothing else
/// changed.
pub proof fn lemma_shifts(regs: Registers, v: u8)
    ensures
        regs.asl(v).0 == (2 * v) % 256,
        regs.lsr(v).0 == v / 2,
        regs.rol(v).0 == (2 * v + regs.carry_in()) % 256,
        regs.ror(v).0 == v / 2 + 128 * regs.carry_in(),
        regs.asl(v).1.flag(Psr::C) == (v >= 0x80),
        regs.rol(v).1.flag(Psr::C) == (v >= 0x80),
        regs.lsr(v).1.flag(Psr::C) == (v % 2 == 1),
        regs.ror(v).1.flag(Psr::C) == (v % 2 == 1),
        regs.asl(v).1.flag(Psr::Z) == (regs.asl(v).0 == 0),
        regs.lsr(v).1.flag(Psr::Z) == (regs.lsr(v).0 == 0),
        regs.rol(v).1.flag(Psr::Z) == (regs.rol(v).0 == 0),
        regs.ror(v).1.flag(Psr::Z) == (regs.ror(v).0 == 0),
        regs.asl(v).1.flag(Psr::N) == (regs.asl(v).0 >= 0x80),
        !regs.lsr(v).1.flag(Psr::N),
        regs.rol(v).1.flag(Psr::N) == (regs.rol(v).0 >= 0x80),
        regs.ror(v).1.flag(Psr::N) == regs.flag(Psr::C),
        regs.asl(v).1.same_but_flags(regs, set![Psr::C, Psr::Z, Psr::N]),
        regs.lsr(v).1.same_but_flags(regs, set![Psr::C, Psr::Z, Psr::N]),
        regs.rol(v).1.same_but_flags(regs, set![Psr::C, Psr::Z, Psr::N]),
        regs.ror(v).1.same_but_flags(regs, set![Psr::C, Psr::Z, Psr::N]),
{
    regs.lemma_with_flag(Psr::C, v >= 0x80);
    regs.lemma_with_flag(Psr::C, v % 2 == 1);
    regs.with_flag(Psr::C, v >= 0x80).lemma_with_zn(regs.asl(v).0);
    regs.with_flag(Psr::C, v >= 0x80).lemma_with_zn(regs.rol(v).0);
    regs.with_flag(Psr::C, v % 2 == 1).lemma_with_zn(regs.lsr(v).0);
    regs.with_flag(Psr::C, v % 2 == 1).lemma_with_zn(regs.ror(v).0);
}

/// What loads, transfers, increments and decrements of a register leave
/// behind: the value in the register, zero and negative as the value has
/// them; and nothing else changed.
pub proof fn lemma_loads(regs: Registers, val: u8)
    ensures
        regs.load_a(val).a == val,
        regs.load_x(val).x == val,
        regs.load_y(val).y == val,
        regs.load_a(val).flag(Psr::Z) == (val == 0),
        regs.load_a(val).flag(Psr::N) == (val >= 0x80),
        regs.load_x(val).flag(Psr::Z) == (val == 0),
        regs.load_x(val).flag(Psr::N) == (val >= 0x80),
        regs.load_y(val).flag(Psr::Z) == (val == 0),
        regs.load_y(val).flag(Psr::N) == (val >= 0x80),
        regs.load_a(val).same_but_flags(Registers { a: val, ..regs }, set![Psr::Z, Psr::N]),
        regs.load_x(val).same_but_flags(Registers { x: val, ..regs }, set![Psr::Z, Psr::N]),
        regs.load_y(val).same_but_flags(Registers { y: val, ..regs }, set![Psr::Z, Psr::N]),
{
    (Registers { a: val, ..regs }).lemma_with_zn(val);
    (Registers { x: val, ..regs }).lemma_with_zn(val);
    (Registers { y: val, ..regs }).lemma_with_zn(val);
}

/// Puts a value into the accumulator and sets zero and negative from it.
fn load_a(regs: &mut Registers, val: u8)
    ensures
        *final(regs) == old(regs).load_a(val),
{
    regs.a = val;
    regs.set_zn(val);
}

/// Puts a value into X and sets zero and negative from it.
fn load_x(regs: &mut Registers, val: u8)
    ensures
        *final(regs) == old(regs).load_x(val),
{
    regs.x = val;
    regs.set_zn(val);
}

/// Puts a value into Y and sets zero and negative from it.
fn load_y(regs: &mut Registers, val: u8)
    ensures
        *final(regs) == old(regs).load_y(val),
{
    regs.y = val;
    regs.set_zn(val);
}

/// The carry flag as a number.
fn carry(regs: &Registers) -> (c: u8)
    ensures
        c == regs.carry_in(),
{
    if regs.psr.contains(Psr::C) {
        1
    } else {
        0
    }
}

/// Adds the operand and the carry to the accumulator.
fn adc(regs: &mut Registers, m: u8)
    ensures
        *final(regs) == old(regs).adc(m),
{
    let a = regs.a;
    let sum: u16 = a as u16 + m as u16 + carry(regs) as u16;
    let out: u8 = (sum % 256) as u8;
    // The signed sum leaves its range when both operands have one sign and
    // the result has the other.
    let overflow = (a >= 0x80) == (m >= 0x80) && (out >= 0x80) != (a >= 0x80);
    regs.a = out;
    regs.psr.set(Psr::C, sum > 0xff);
    regs.psr.set(Psr::V, overflow);
    regs.set_zn(out);
}

/// Subtracts the operand and the borrow from the accumulator.
fn sbc(regs: &mut Registers, m: u8)
    ensures
        *final(regs) == old(regs).sbc(m),
{
    // Subtracting is adding the operand's complement.
    adc(regs, 255 - m);
}

/// Compares a register's value with the operand.
fn compare(regs: &mut Registers, reg: u8, m: u8)
    ensures
        *final(regs) == old(regs).compare(reg, m),
{
    regs.psr.set(Psr::C, reg >= m);
    regs.set_zn(reg.wrapping_sub(m));
}

/// Tests the operand against the accumulator.
fn bit(regs: &mut Registers, m: u8)
    ensures
        *final(regs) == old(regs).bit(m),
{
    regs.psr.set(Psr::Z, regs.a & m == 0);
    regs.psr.set(Psr::V, m & 0x40 == 0x40);
    regs.psr.set(Psr::N, m >= 0x80);
}

/// Loads accumulator and X together.
fn lax(regs: &mut Registers, m: u8)
    ensures
        *final(regs) == old(regs).lax(m),
{
    regs.a = m;
    regs.x = m;
    regs.set_zn(m);
}

/// Ands, then shifts the accumulator right.
fn alr(regs: &mut Registers, m: u8)
    ensures
        *final(regs) == old(regs).alr(m),
{
    let masked = regs.a & m;
    regs.a = masked / 2;
    regs.psr.set(Psr::C, masked % 2 == 1);
    regs.set_zn(masked / 2);
}

/// Ands, then copies the negative flag into carry.
fn anc(regs: &mut Registers, m: u8)
    ensures
        *final(regs) == old(regs).anc(m),
{
    let out = regs.a & m;
    load_a(regs, out);
    regs.psr.set(Psr::C, out >= 0x80);
}

/// Ands, then rotates the accumulator right.
fn arr(regs: &mut Registers, m: u8)
    ensures
        *final(regs) == old(regs).arr(m),
{
    let out = (regs.a & m) / 2 + 128 * carry(regs);
    regs.a = out;
    regs.set_zn(out);
    regs.psr.set(Psr::C, out & 0x40 == 0x40);
    regs.psr.set(Psr::V, (out & 0x40 == 0x40) != (out & 0x20 == 0x20));
}

/// Subtracts the operand from accumulator-and-X into X.
fn axs(regs: &mut Registers, m: u8)
    ensures
        *final(regs) == old(regs).axs(m),
{
    let masked = regs.a & regs.x;
    let out = masked.wrapping_sub(m);
    regs.x = out;
    regs.psr.set(Psr::C, masked >= m);
    regs.set_zn(out);
}

/// Carries out an operation that reads its operand, on the byte read.
pub fn read_op(regs: &mut Registers, opcode: Opcode, m: u8)
    ensures
        *final(regs) == old(regs).read_op(opcode, m),
{
    match opcode {
        Opcode::ADC => adc(regs, m),
        Opcode::SBC => sbc(regs, m),
        Opcode::AND => load_a(regs, regs.a & m),
        Opcode::EOR => load_a(regs, regs.a ^ m),
        Opcode::ORA => load_a(regs, regs.a | m),
        Opcode::LDA => load_a(regs, m),
        Opcode::LDX => load_x(regs, m),
        Opcode::LDY => load_y(regs, m),
        Opcode::CMP => compare(regs, regs.a, m),
        Opcode::CPX => compare(regs, regs.x, m),
        Opcode::CPY => compare(regs, regs.y, m),
        Opcode::BIT => bit(regs, m),
        Opcode::LAX => lax(regs, m),
        Opcode::ALR => alr(regs, m),
        Opcode::ANC => anc(regs, m),
        Opcode::ARR => arr(regs, m),
        Opcode::AXS => axs(regs, m),
        _ => {},
    }
}

/// Shifts a byte left by one bit.
fn asl(regs: &mut Registers, v: u8) -> (out: u8)
    ensures
        (out, *final(regs)) == old(regs).asl(v),
{
    let out = (v % 128) * 2;
    regs.psr.set(Psr::C, v >= 0x80);
    regs.set_zn(out);
    out
}

/// Shifts a byte right by one bit.
fn lsr(regs: &mut Registers, v: u8) -> (out: u8)
    ensures
        (out, *final(regs)) == old(regs).lsr(v),
{
    let out = v / 2;
    regs.psr.set(Psr::C, v % 2 == 1);
    regs.set_zn(out);
    out
}

/// Rotates a byte left by one bit through carry.
fn rol(regs: &mut Registers, v: u8) -> (out: u8)
    ensures
        (out, *final(regs)) == old(regs).rol(v),
{
    let out = (v % 128) * 2 + carry(regs);
    regs.psr.set(Psr::C, v >= 0x80);
    regs.set_zn(out);
    out
}

/// Rotates a byte right by one bit through carry.
fn ror(regs: &mut Registers, v: u8) -> (out: u8)
    ensures
        (out, *final(regs)) == old(regs).ror(v),
{
    let out = v / 2 + 128 * carry(regs);
    regs.psr.set(Psr::C, v % 2 == 1);
    regs.set_zn(out);
    out
}

/// Increments a byte.
fn inc(regs: &mut Registers, v: u8) -> (out: u8)
    ensures
        (out, *final(regs)) == old(regs).inc(v),
{
    let out = v.wrapping_add(1);
    regs.set_zn(out);
    out
}

/// Decrements a byte.
fn dec(regs: &mut Registers, v: u8) -> (out: u8)
    ensures
        (out, *final(regs)) == old(regs).dec(v),
{
    let out = v.wrapping_sub(1);
    regs.set_zn(out);
    out
}

/// Carries out a read-modify-write operation on the byte read, and gives the
/// byte to write back.
pub fn modify_op(regs: &mut Registers, opcode: Opcode, v: u8) -> (out: u8)
    ensures
        (out, *final(regs)) == old(regs).modify_op(opcode, v),
{
    match opcode {
        Opcode::ASL => asl(regs, v),
        Opcode::LSR => lsr(regs, v),
        Opcode::ROL => rol(regs, v),
        Opcode::ROR => ror(regs, v),
        Opcode::INC => inc(regs, v),
        Opcode::DEC => dec(regs, v),
        Opcode::SLO => {
            let out = asl(regs, v);
            load_a(regs, regs.a | out);
            out
        },
        Opcode::RLA => {
            let out = rol(regs, v);
            load_a(regs, regs.a & out);
            out
        },
        Opcode::SRE => {
            let out = lsr(regs, v);
            load_a(regs, regs.a ^ out);
            out
        },
        Opcode::RRA => {
            let out = ror(regs, v);
            adc(regs, out);
            out
        },
        Opcode::DCP => {
            let out = v.wrapping_sub(1);
            compare(regs, regs.a, out);
            out
        },
        Opcode::ISC => {
            let out = v.wrapping_add(1);
            sbc(regs, out);
            out
        },
        _ => v,
    }
}

/// The byte that a store operation writes.
pub fn store_op(regs: &Registers, opcode: Opcode) -> (val: u8)
    ensures
        val == regs.store_op(opcode),
{
    match opcode {
        Opcode::STA => regs.a,
        Opcode::STX => regs.x,
        Opcode::STY => regs.y,
        Opcode::SAX => regs.a & regs.x,
        _ => 0,
    }
}

/// Copies the stack pointer's low byte into X, with its flags.
pub fn tsx(regs: &mut Registers)
    ensures
        *final(regs) == old(regs).register_op(Opcode::TSX),
{
    let sp = crate::bits::lo(regs.sp);
    load_x(regs, sp);
}

/// Carries out an operation without an operand.
pub fn register_op(regs: &mut Registers, opcode: Opcode)
    ensures
        *final(regs) == old(regs).register_op(opcode),
{
    match opcode {
        Opcode::INX => load_x(regs, regs.x.wrapping_add(1)),
        Opcode::INY => load_y(regs, regs.y.wrapping_add(1)),
        Opcode::DEX => load_x(regs, regs.x.wrapping_sub(1)),
        Opcode::DEY => load_y(regs, regs.y.wrapping_sub(1)),
        Opcode::TAX => load_x(regs, regs.a),
        Opcode::TAY => load_y(regs, regs.a),
        Opcode::TXA => load_a(regs, regs.x),
        Opcode::TYA => load_a(regs, regs.y),
        Opcode::TSX => tsx(regs),
        Opcode::TXS => {
            regs.sp = 0x0100 + regs.x as u16;
        },
        Opcode::SEC => regs.psr.insert(Psr::C),
        Opcode::SED => regs.psr.insert(Psr::D),
        Opcode::SEI => regs.psr.insert(Psr::I),
        Opcode::CLC => regs.psr.remove(Psr::C),
        Opcode::CLD => regs.psr.remove(Psr::D),
        Opcode::CLI => regs.psr.remove(Psr::I),
        Opcode::CLV => regs.psr.remove(Psr::V),
        _ => {},
    }
}

/// Whether a branch operation finds its condition met.
pub fn branch_taken(regs: &Registers, opcode: Opcode) -> (taken: bool)
    ensures
        taken == regs.branch_taken(opcode),
{
    match opcode {
        Opcode::BCC => !regs.psr.contains(Psr::C),
        Opcode::BCS => regs.psr.contains(Psr::C),
        Opcode::BEQ => regs.psr.contains(Psr::Z),
        Opcode::BMI => regs.psr.contains(Psr::N),
        Opcode::BNE => !regs.psr.contains(Psr::Z),
        Opcode::BPL => !regs.psr.contains(Psr::N),
        Opcode::BVC => !regs.psr.contains(Psr::V),
        Opcode::BVS => regs.psr.contains(Psr::V),
        _ => false,
    }
}

} // verus!
