//! The picture processor's registers: three flag bytes and the two
//! double-write registers with their latches.

use crate::bits::{has_flag, high_byte, lemma_masks, low_byte, with_flag, word};
use vstd::prelude::*;

verus! {

/// The largest video address: the address register holds 14 bits.
pub const ADDR_MAX: u16 = 0x3fff;

/// The control register, written through port `$2000`.
#[derive(PartialEq, Eq, Structural, Copy, Clone, Debug)]
pub struct Control {
    pub bits: u8,
}

impl Control {
    /// Base nametable address, low bit.
    pub const N1: u8 = 0b0000_0001;

    /// Base nametable address, high bit.
    pub const N2: u8 = 0b0000_0010;

    /// Video address increment per data access: 1 when clear, 32 when set.
    pub const I: u8 = 0b0000_0100;

    /// Sprite pattern table select.
    pub const S: u8 = 0b0000_1000;

    /// Background pattern table select.
    pub const B: u8 = 0b0001_0000;

    /// Sprite size: 8x8 when clear, 8x16 when set.
    pub const H: u8 = 0b0010_0000;

    /// Master/slave select.
    pub const P: u8 = 0b0100_0000;

    /// Raise a non-maskable interrupt at the start of vertical blanking.
    pub const V: u8 = 0b1000_0000;

    /// The step by which a data access moves the video address.
    pub open spec fn increment(self) -> u16 {
        if has_flag(self.bits, Control::I) {
            32
        } else {
            1
        }
    }

    /// Whether this value asks for an interrupt at vertical blanking.
    pub open spec fn wants_nmi(self) -> bool {
        has_flag(self.bits, Control::V)
    }

    /// The register with every bit clear.
    pub fn empty() -> (c: Self)
        ensures
            c.bits == 0,
    {
        Control { bits: 0 }
    }

    /// Whether every bit of `flag` is set.
    pub fn contains(&self, flag: u8) -> (on: bool)
        ensures
            on == has_flag(self.bits, flag),
    {
        self.bits & flag == flag
    }

    /// Replaces the whole register.
    pub fn update(&mut self, val: u8)
        ensures
            final(self).bits == val,
    {
        self.bits = val;
    }

    /// The step by which a data access moves the video address.
    pub fn increment_amt(&self) -> (amt: u16)
        ensures
            amt == self.increment(),
            amt == 1 || amt == 32,
    {
        if self.contains(Control::I) {
            32
        } else {
            1
        }
    }

    /// Whether the interrupt-enable bit is set.
    pub fn nmi(&self) -> (on: bool)
        ensures
            on == self.wants_nmi(),
    {
        self.contains(Control::V)
    }
}

/// The mask register, written through port `$2001`.
#[derive(PartialEq, Eq, Structural, Copy, Clone, Debug)]
pub struct Mask {
    pub bits: u8,
}

impl Mask {
    /// Greyscale display.
    pub const GS: u8 = 0b0000_0001;

    /// Show the background in the leftmost 8 pixels.
    pub const RC1: u8 = 0b0000_0010;

    /// Show sprites in the leftmost 8 pixels.
    pub const RC2: u8 = 0b0000_0100;

    /// Show the background.
    pub const RC3: u8 = 0b0000_1000;

    /// Show sprites.
    pub const RC4: u8 = 0b0001_0000;

    /// Emphasize red.
    pub const R: u8 = 0b0010_0000;

    /// Emphasize green.
    pub const G: u8 = 0b0100_0000;

    /// Emphasize blue.
    pub const B: u8 = 0b1000_0000;

    /// The register with every bit clear.
    pub fn empty() -> (m: Self)
        ensures
            m.bits == 0,
    {
        Mask { bits: 0 }
    }

    /// Whether every bit of `flag` is set.
    pub fn contains(&self, flag: u8) -> (on: bool)
        ensures
            on == has_flag(self.bits, flag),
    {
        self.bits & flag == flag
    }

    /// Replaces the whole register.
    pub fn update(&mut self, val: u8)
        ensures
            final(self).bits == val,
    {
        self.bits = val;
    }
}

/// The status register, read through port `$2002`.
#[derive(PartialEq, Eq, Structural, Copy, Clone, Debug)]
pub struct Status {
    pub bits: u8,
}

impl Status {
    /// Bits that carry what was last written to a register, bit 0.
    pub const U1: u8 = 0b0000_0001;

    /// Bit 1 of the same.
    pub const U2: u8 = 0b0000_0010;

    /// Bit 2 of the same.
    pub const U3: u8 = 0b0000_0100;

    /// Bit 3 of the same.
    pub const U4: u8 = 0b0000_1000;

    /// Bit 4 of the same.
    pub const U5: u8 = 0b0001_0000;

    /// Sprite overflow.
    pub const O: u8 = 0b0010_0000;

    /// Sprite 0 hit.
    pub const S: u8 = 0b0100_0000;

    /// Vertical blanking has started.
    pub const V: u8 = 0b1000_0000;

    /// Whether the vertical-blanking bit is set.
    pub open spec fn vblank(self) -> bool {
        has_flag(self.bits, Status::V)
    }

    /// This value with the bits of `flag` switched on or off.
    pub open spec fn with(self, flag: u8, on: bool) -> Status {
        Status { bits: with_flag(self.bits, flag, on) }
    }

    /// The register with every bit clear.
    pub fn empty() -> (s: Self)
        ensures
            s.bits == 0,
    {
        Status { bits: 0 }
    }

    /// The raw byte.
    pub fn bits(&self) -> (b: u8)
        ensures
            b == self.bits,
    {
        self.bits
    }

    /// Whether every bit of `flag` is set.
    pub fn contains(&self, flag: u8) -> (on: bool)
        ensures
            on == has_flag(self.bits, flag),
    {
        self.bits & flag == flag
    }

    /// Switches the bits of `flag` on.
    pub fn insert(&mut self, flag: u8)
        ensures
            *final(self) == old(self).with(flag, true),
    {
        self.bits = self.bits | flag;
    }

    /// Switches the bits of `flag` off.
    pub fn remove(&mut self, flag: u8)
        ensures
            *final(self) == old(self).with(flag, false),
    {
        self.bits = self.bits & !flag;
    }

    /// Switches the bits of `flag` on or off.
    pub fn set(&mut self, flag: u8, on: bool)
        ensures
            *final(self) == old(self).with(flag, on),
    {
        if on {
            self.insert(flag);
        } else {
            self.remove(flag);
        }
    }

    /// Whether the vertical-blanking bit is set.
    pub fn in_vblank(&self) -> (on: bool)
        ensures
            on == self.vblank(),
    {
        self.contains(Status::V)
    }
}

/// The scroll register, written through port `$2005`: the first write sets
/// the horizontal position, the second the vertical one.
#[derive(PartialEq, Eq, Structural, Copy, Clone, Debug)]
pub struct Scroll {
    /// Horizontal scroll.
    pub x: u8,
    /// Vertical scroll.
    pub y: u8,
    /// Whether the next write is the second of a pair.
    pub latched: bool,
}

impl Scroll {
    /// The register after one more byte has been written to it.
    pub open spec fn after_write(self, val: u8) -> Scroll {
        if self.latched {
            Scroll { y: val, latched: false, ..self }
        } else {
            Scroll { x: val, latched: true, ..self }
        }
    }

    /// Both positions zero, first write next.
    pub fn new() -> (s: Self)
        ensures
            s == (Scroll { x: 0, y: 0, latched: false }),
    {
        Scroll { x: 0, y: 0, latched: false }
    }

    /// Takes one written byte and flips the latch.
    pub fn set(&mut self, val: u8)
        ensures
            *final(self) == old(self).after_write(val),
    {
        if self.latched {
            self.y = val;
        } else {
            self.x = val;
        }
        self.latched = !self.latched;
    }

    /// Makes the next write the first of a pair.
    pub fn reset_latch(&mut self)
        ensures
            *final(self) == (Scroll { latched: false, ..*old(self) }),
    {
        self.latched = false;
    }
}

impl Default for Scroll {
    fn default() -> (s: Self)
        ensures
            s == (Scroll { x: 0, y: 0, latched: false }),
    {
        Scroll::new()
    }
}

/// The video address register, written through port `$2006`: the first write
/// sets the high byte, the second the low byte. It holds 14 bits.
#[derive(PartialEq, Eq, Structural, Copy, Clone, Debug)]
pub struct Addr {
    /// The address.
    pub raw: u16,
    /// Whether the next write sets the high byte.
    pub hi: bool,
}

impl Addr {
    /// The register after one more byte has been written to it: the byte
    /// replaces the high or the low byte, and the result keeps its low 14
    /// bits.
    pub open spec fn after_write(self, val: u8) -> Addr {
        if self.hi {
            Addr { raw: (word(low_byte(self.raw), val) % 0x4000) as u16, hi: false }
        } else {
            Addr { raw: (word(val, high_byte(self.raw)) % 0x4000) as u16, hi: true }
        }
    }

    /// The register after the address has moved on by `amt`, wrapping at 14
    /// bits.
    pub open spec fn after_increment(self, amt: u16) -> Addr {
        Addr { raw: ((self.raw + amt) % 0x4000) as u16, ..self }
    }

    /// Two writes that start at the high byte set the whole address: the
    /// word `hi`:`lo`, cut to 14 bits.
    pub proof fn lemma_write_pair(self, hi: u8, lo: u8)
        requires
            self.hi,
        ensures
            self.after_write(hi).after_write(lo) == (Addr {
                raw: (word(lo, hi) % 0x4000) as u16,
                hi: true,
            }),
    {
        let raw = self.raw;
        assert((lo + 256 * (((raw % 256 + 256 * hi) % 0x4000) / 256)) % 0x4000 == (lo + 256 * hi)
            % 0x4000) by (bit_vector);
    }

    /// Address zero, high byte next.
    pub fn new() -> (a: Self)
        ensures
            a == (Addr { raw: 0, hi: true }),
    {
        Addr { raw: 0, hi: true }
    }

    /// Takes one written byte and flips the latch.
    pub fn set(&mut self, val: u8)
        ensures
            *final(self) == old(self).after_write(val),
            final(self).raw <= ADDR_MAX,
    {
        let raw = self.raw;
        if self.hi {
            assert((((raw & 0x00ff) | ((val as u16) << 8)) & 0x3fff) == (raw % 256 + 256 * val)
                % 0x4000) by (bit_vector);
            self.raw = ((raw & 0x00ff) | ((val as u16) << 8)) & ADDR_MAX;
        } else {
            assert((((raw & 0xff00) | (val as u16)) & 0x3fff) == (val + 256 * (raw / 256))
                % 0x4000) by (bit_vector);
            self.raw = ((raw & 0xff00) | (val as u16)) & ADDR_MAX;
        }
        self.hi = !self.hi;
    }

    /// Moves the address on by `amt`, wrapping at 14 bits.
    pub fn increment(&mut self, amt: u16)
        ensures
            *final(self) == old(self).after_increment(amt),
            final(self).raw <= ADDR_MAX,
    {
        let sum = self.raw.wrapping_add(amt);
        proof {
            lemma_masks(sum);
        }
        self.raw = sum & ADDR_MAX;
    }

    /// Makes the next write set the high byte.
    pub fn reset_latch(&mut self)
        ensures
            *final(self) == (Addr { hi: true, ..*old(self) }),
    {
        self.hi = true;
    }
}

} // verus!
