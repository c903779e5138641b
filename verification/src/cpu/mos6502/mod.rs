//! The 6502 instruction set: registers, opcode table and execution.

pub mod alu;
pub mod decode;
pub mod isa;
pub mod laws;

use crate::bits::{
    has_flag, lemma_byte, lemma_with_flag_has, lemma_with_flag_spares, single_bit, with_flag,
};
use vstd::prelude::*;

verus! {

/// The processor status register: eight flag bits.
#[derive(PartialEq, Eq, Structural, Copy, Clone, Debug)]
pub struct Psr {
    pub bits: u8,
}

impl Psr {
    /// Carry flag.
    pub const C: u8 = 0b0000_0001;

    /// Zero flag.
    pub const Z: u8 = 0b0000_0010;

    /// Interrupt-disable flag.
    pub const I: u8 = 0b0000_0100;

    /// Decimal-mode flag.
    pub const D: u8 = 0b0000_1000;

    /// Break flag.
    pub const B: u8 = 0b0001_0000;

    /// Unused bit. Nothing reads it, and pushes and pulls carry it along.
    pub const U: u8 = 0b0010_0000;

    /// Overflow flag.
    pub const V: u8 = 0b0100_0000;

    /// Negative flag.
    pub const N: u8 = 0b1000_0000;

    /// Every bit that stands for a flag.
    pub const ALL: u8 = 0b1111_1111;

    /// The flag byte at power-on.
    pub const POWER_ON: u8 = 0x34;

    /// Whether every bit of `flag` is set.
    pub open spec fn has(self, flag: u8) -> bool {
        has_flag(self.bits, flag)
    }

    /// This value with the bits of `flag` switched on or off.
    pub open spec fn with(self, flag: u8, on: bool) -> Psr {
        Psr { bits: with_flag(self.bits, flag, on) }
    }

    /// A flag that was set or cleared reads back as set or cleared, and every
    /// other flag reads as it did before.
    pub proof fn lemma_flags_are_independent(self, flag: u8, on: bool, other: u8)
        requires
            single_bit(flag),
            single_bit(other),
            flag != other,
        ensures
            self.with(flag, on).has(flag) == on,
            self.with(flag, on).has(other) == self.has(other),
    {
        lemma_with_flag_has(self.bits, flag, on);
        lemma_with_flag_spares(self.bits, flag, on, other);
    }

    /// The flags at power-on.
    pub fn new() -> (psr: Self)
        ensures
            psr.bits == Psr::POWER_ON,
    {
        Psr::from_bits_truncate(Psr::POWER_ON)
    }

    /// The flags that a byte stands for. Bits that stand for no flag would be
    /// dropped; all eight do stand for one, so the byte is kept whole.
    pub fn from_bits_truncate(bits: u8) -> (psr: Self)
        ensures
            psr.bits == bits,
    {
        proof {
            lemma_byte(bits);
        }
        Psr { bits: bits & Psr::ALL }
    }

    /// The raw byte.
    pub fn bits(&self) -> (b: u8)
        ensures
            b == self.bits,
    {
        self.bits
    }

    /// Whether every bit of `flag` is set.
    pub fn contains(&self, flag: u8) -> (on: bool)
        ensures
            on == self.has(flag),
    {
        self.bits & flag == flag
    }

    /// Switches the bits of `flag` on.
    pub fn insert(&mut self, flag: u8)
        ensures
            *final(self) == old(self).with(flag, true),
    {
        self.bits = self.bits | flag;
    }

    /// Switches the bits of `flag` off.
    pub fn remove(&mut self, flag: u8)
        ensures
            *final(self) == old(self).with(flag, false),
    {
        self.bits = self.bits & !flag;
    }

    /// Switches the bits of `flag` on or off.
    pub fn set(&mut self, flag: u8, on: bool)
        ensures
            *final(self) == old(self).with(flag, on),
    {
        if on {
            self.insert(flag);
        } else {
            self.remove(flag);
        }
    }
}

/// The register file.
#[derive(PartialEq, Eq, Structural, Copy, Clone, Debug)]
pub struct Registers {
    /// Accumulator.
    pub a: u8,
    /// X index register.
    pub x: u8,
    /// Y index register.
    pub y: u8,
    /// Program counter.
    pub pc: u16,
    /// Stack pointer: an 8-bit pointer kept with the stack page's base,
    /// `0x0100`, added to it.
    pub sp: u16,
    /// Processor status register.
    pub psr: Psr,
}

impl Registers {
    /// The stack pointer at power-on.
    pub const STACK_TOP: u16 = 0x01fd;

    /// The stack pointer lies in the stack page.
    pub open spec fn wf(self) -> bool {
        0x0100 <= self.sp <= 0x01ff
    }

    /// The registers at power-on.
    pub open spec fn power_on() -> Registers {
        Registers {
            a: 0,
            x: 0,
            y: 0,
            pc: 0,
            sp: Registers::STACK_TOP,
            psr: Psr { bits: Psr::POWER_ON },
        }
    }

    /// Whether a flag is set.
    pub open spec fn flag(self, flag: u8) -> bool {
        self.psr.has(flag)
    }

    /// These registers with a flag switched on or off.
    pub open spec fn with_flag(self, flag: u8, on: bool) -> Registers {
        Registers { psr: self.psr.with(flag, on), ..self }
    }

    /// These registers with the zero and negative flags set from a value:
    /// zero when it is 0, negative when its top bit is set.
    pub open spec fn with_zn(self, val: u8) -> Registers {
        self.with_flag(Psr::Z, val == 0).with_flag(Psr::N, val >= 0x80)
    }

    /// Whether two register files agree in everything but the flags named
    /// in `touched`: in the registers proper and in every other flag.
    pub open spec fn same_but_flags(self, other: Registers, touched: Set<u8>) -> bool {
        &&& self.a == other.a
        &&& self.x == other.x
        &&& self.y == other.y
        &&& self.pc == other.pc
        &&& self.sp == other.sp
        &&& forall|flag: u8|
            single_bit(flag) && !touched.contains(flag) ==> #[trigger] self.flag(flag)
                == other.flag(flag)
    }

    /// Switching a flag makes it read as switched and changes nothing else.
    pub proof fn lemma_with_flag(self, flag: u8, on: bool)
        requires
            single_bit(flag),
        ensures
            self.with_flag(flag, on).flag(flag) == on,
            self.with_flag(flag, on).same_but_flags(self, set![flag]),
    {
        lemma_with_flag_has(self.psr.bits, flag, on);
        let switched = self.with_flag(flag, on);
        assert forall|other: u8|
            single_bit(other) && other != flag implies #[trigger] switched.flag(other)
            == self.flag(other) by {
            self.psr.lemma_flags_are_independent(flag, on, other);
        }
    }

    /// Setting zero and negative from a value leaves zero set exactly when
    /// the value is 0 and negative exactly when its top bit is set, and
    /// changes nothing else.
    pub proof fn lemma_with_zn(self, val: u8)
        ensures
            self.with_zn(val).flag(Psr::Z) == (val == 0),
            self.with_zn(val).flag(Psr::N) == (val >= 0x80),
            self.with_zn(val).flag(Psr::N) == has_flag(val, 0x80),
            self.with_zn(val).same_but_flags(self, set![Psr::Z, Psr::N]),
    {
        let zero = self.psr.with(Psr::Z, val == 0);
        zero.lemma_flags_are_independent(Psr::N, val >= 0x80, Psr::Z);
        self.psr.lemma_flags_are_independent(Psr::Z, val == 0, Psr::N);
        lemma_byte(val);
        assert forall|flag: u8|
            single_bit(flag) && flag != Psr::Z && flag != Psr::N implies #[trigger] self.with_zn(
            val,
        ).flag(flag) == self.flag(flag) by {
            self.psr.lemma_flags_are_independent(Psr::Z, val == 0, flag);
            zero.lemma_flags_are_independent(Psr::N, val >= 0x80, flag);
        }
    }

    /// The registers at power-on.
    pub fn new() -> (regs: Self)
        ensures
            regs == Registers::power_on(),
            regs.wf(),
    {
        Registers { a: 0, x: 0, y: 0, pc: 0, sp: Registers::STACK_TOP, psr: Psr::new() }
    }

    /// Gives the program counter and moves it on by one, wrapping at the end
    /// of the address space.
    pub fn bump(&mut self) -> (pc: u16)
        ensures
            pc == old(self).pc,
            *final(self) == (Registers { pc: old(self).pc.wrapping_add(1), ..*old(self) }),
    {
        let pc = self.pc;
        self.pc = self.pc.wrapping_add(1);
        pc
    }

    /// Sets the zero and negative flags from a value.
    pub fn set_zn(&mut self, val: u8)
        ensures
            *final(self) == old(self).with_zn(val),
    {
        self.psr.set(Psr::Z, val == 0);
        self.psr.set(Psr::N, val >= 0x80);
    }
}

} // verus!
