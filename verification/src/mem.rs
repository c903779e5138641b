//! The address bus: work RAM and the picture processor's register ports.

use crate::bits::{lemma_masks, make_word, word};
use crate::ppu::{Ppu, PpuError, PpuState};
use vstd::prelude::*;

verus! {

/// Bytes of work RAM.
pub const RAM_SIZE: usize = 0x800;

/// Everything behind the bus as a mathematical value.
pub struct BusState {
    pub ram: Seq<u8>,
    pub ppu: PpuState,
}

impl BusState {
    /// The state is well formed: RAM has its fixed size and the picture
    /// processor is well formed.
    pub open spec fn wf(self) -> bool {
        &&& self.ram.len() == RAM_SIZE
        &&& self.ppu.wf()
    }

    /// Zeroed RAM in front of the given picture processor.
    pub open spec fn power_on(ppu: PpuState) -> BusState {
        BusState { ram: Seq::new(RAM_SIZE as nat, |i: int| 0u8), ppu }
    }

    /// The cell of RAM that an address up to `0x1fff` stands for: RAM shows
    /// four times in that range.
    pub open spec fn ram_cell(addr: u16) -> int {
        addr as int % 0x800
    }

    /// A read of one byte: the byte and the state after the read.
    ///
    /// Addresses up to `0x1fff` read RAM. `0x2002`, `0x2004` and `0x2007`
    /// read the picture processor's status, sprite data and data ports; the
    /// first and the last change its state. Every other address reads as 0.
    pub open spec fn read8(self, addr: u16) -> (u8, BusState) {
        if addr <= 0x1fff {
            (self.ram[Self::ram_cell(addr)], self)
        } else if addr == 0x2002 {
            let (val, ppu) = self.ppu.read_stat();
            (val, BusState { ppu, ..self })
        } else if addr == 0x2004 {
            (self.ppu.read_oam(), self)
        } else if addr == 0x2007 {
            let (val, ppu) = self.ppu.read_vram();
            (val, BusState { ppu, ..self })
        } else {
            (0, self)
        }
    }

    /// A read of one word: the byte at `addr` is its low byte, the byte at
    /// the next address (0 after `0xffff`) its high byte, read in this order.
    pub open spec fn read16(self, addr: u16) -> (u16, BusState) {
        let (lo, after_lo) = self.read8(addr);
        let (hi, after_hi) = after_lo.read8(addr.wrapping_add(1));
        (word(lo, hi), after_hi)
    }

    /// A write of one byte: whether it was accepted, and the state after it.
    ///
    /// Addresses up to `0x1fff` write RAM. `0x2000`, `0x2001` and `0x2003`
    /// to `0x2007` write the picture processor's control, mask, sprite
    /// address, sprite data, scroll, address and data ports. A write to any
    /// other address is dropped. Only the data port can refuse a write.
    pub open spec fn write8(self, addr: u16, val: u8) -> (Result<(), PpuError>, BusState) {
        if addr <= 0x1fff {
            (Ok(()), BusState { ram: self.ram.update(Self::ram_cell(addr), val), ..self })
        } else if addr == 0x2000 {
            (Ok(()), BusState { ppu: self.ppu.write_ctrl(val), ..self })
        } else if addr == 0x2001 {
            (Ok(()), BusState { ppu: self.ppu.write_mask(val), ..self })
        } else if addr == 0x2003 {
            (Ok(()), BusState { ppu: self.ppu.write_oam_addr(val), ..self })
        } else if addr == 0x2004 {
            (Ok(()), BusState { ppu: self.ppu.write_oam_data(val), ..self })
        } else if addr == 0x2005 {
            (Ok(()), BusState { ppu: self.ppu.write_scroll(val), ..self })
        } else if addr == 0x2006 {
            (Ok(()), BusState { ppu: self.ppu.write_address(val), ..self })
        } else if addr == 0x2007 {
            let (res, ppu) = self.ppu.write_vram(val);
            (res, BusState { ppu, ..self })
        } else {
            (Ok(()), self)
        }
    }
}

/// Every access over the bus keeps a well-formed state well formed.
pub proof fn lemma_accesses_keep_wf(bus: BusState, addr: u16, val: u8)
    requires
        bus.wf(),
    ensures
        bus.read8(addr).1.wf(),
        bus.read16(addr).1.wf(),
        bus.write8(addr, val).1.wf(),
{
    crate::ppu::lemma_accesses_keep_wf(bus.ppu, val, true);
    let after = bus.read8(addr).1;
    crate::ppu::lemma_accesses_keep_wf(after.ppu, val, true);
}

/// RAM shows four times in the first eight kilobytes: addresses `0x800`
/// apart there stand for the same cell. What is written through one is read
/// through the other, and no such access can fail or reach the picture
/// processor.
pub proof fn lemma_ram_is_mirrored(bus: BusState, addr: u16, other: u16, val: u8)
    requires
        bus.wf(),
        addr <= 0x1fff,
        other <= 0x1fff,
        addr % 0x800 == other % 0x800,
    ensures
        bus.write8(addr, val).0 is Ok,
        bus.write8(addr, val).1.read8(other).0 == val,
        bus.write8(addr, val).1.ppu == bus.ppu,
        bus.read8(addr) == bus.read8(other),
        bus.read8(addr).1 == bus,
{
}

/// Outside RAM and the picture processor's ports nothing is mapped: a read
/// gives 0, a write is dropped, and neither changes anything.
pub proof fn lemma_unmapped_addresses(bus: BusState, addr: u16, val: u8)
    requires
        addr > 0x2007,
    ensures
        bus.read8(addr) == (0u8, bus),
        bus.write8(addr, val) == (Ok::<(), PpuError>(()), bus),
{
}

/// The ports that are only written read as 0 without any effect, and a write
/// to the status port, which is only read, is dropped.
pub proof fn lemma_one_way_ports(bus: BusState, addr: u16, val: u8)
    requires
        addr == 0x2000 || addr == 0x2001 || addr == 0x2003 || addr == 0x2005 || addr == 0x2006,
    ensures
        bus.read8(addr) == (0u8, bus),
        bus.write8(0x2002, val) == (Ok::<(), PpuError>(()), bus),
{
}

/// The address bus. It owns the picture processor: the processor reaches it
/// through reads and writes of the port addresses and in no other way.
pub struct Memory {
    ram: [u8; 0x800],
    ppu: Ppu,
}

impl View for Memory {
    type V = BusState;

    closed spec fn view(&self) -> BusState {
        BusState { ram: self.ram@, ppu: self.ppu@ }
    }
}

impl Memory {
    /// A bus with zeroed RAM that takes ownership of the picture processor.
    pub fn new(ppu: Ppu) -> (mem: Self)
        ensures
            mem@ == BusState::power_on(ppu@),
            ppu@.wf() ==> mem@.wf(),
    {
        let mem = Memory { ram: [0u8; 0x800], ppu };
        assert(mem.ram@ =~= Seq::new(RAM_SIZE as nat, |i: int| 0u8));
        mem
    }

    /// Reads the byte at `addr`.
    pub fn read8(&mut self, addr: u16) -> (val: u8)
        ensures
            (val, final(self)@) == old(self)@.read8(addr),
            old(self)@.wf() ==> final(self)@.wf(),
    {
        proof {
            lemma_masks(addr);
            if self@.wf() {
                lemma_accesses_keep_wf(self@, addr, 0);
            }
        }
        match addr {
            0x0000..=0x1fff => self.ram[(addr & 0x7ff) as usize],
            0x2002 => self.ppu.read_stat(),
            0x2004 => self.ppu.read_oam(),
            0x2007 => self.ppu.read_vram(),
            _ => 0,
        }
    }

    /// Reads the little-endian word at `addr`.
    pub fn read16(&mut self, addr: u16) -> (val: u16)
        ensures
            (val, final(self)@) == old(self)@.read16(addr),
            old(self)@.wf() ==> final(self)@.wf(),
    {
        let lo = self.read8(addr);
        let hi = self.read8(addr.wrapping_add(1));
        make_word(lo, hi)
    }

    /// Writes `val` to `addr`. The write fails exactly when it goes to the
    /// data port while the video address points into the character ROM.
    pub fn write8(&mut self, addr: u16, val: u8) -> (res: Result<(), PpuError>)
        ensures
            (res, final(self)@) == old(self)@.write8(addr, val),
            res is Err <==> addr == 0x2007 && old(self)@.ppu.addr.raw <= 0x1fff,
            old(self)@.wf() ==> final(self)@.wf(),
    {
        proof {
            lemma_masks(addr);
            if self@.wf() {
                lemma_accesses_keep_wf(self@, addr, val);
            }
        }
        match addr {
            0x0000..=0x1fff => {
                self.ram[(addr & 0x7ff) as usize] = val;
                Ok(())
            },
            0x2000 => {
                self.ppu.write_ctrl(val);
                Ok(())
            },
            0x2001 => {
                self.ppu.write_mask(val);
                Ok(())
            },
            0x2003 => {
                self.ppu.write_oam_addr(val);
                Ok(())
            },
            0x2004 => {
                self.ppu.write_oam_data(val);
                Ok(())
            },
            0x2005 => {
                self.ppu.write_scroll(val);
                Ok(())
            },
            0x2006 => {
                self.ppu.write_address(val);
                Ok(())
            },
            0x2007 => self.ppu.write_vram(val),
            _ => Ok(()),
        }
    }

    /// The picture processor behind the bus, to look at.
    pub fn ppu(&self) -> (ppu: &Ppu)
        ensures
            ppu@ == self@.ppu,
    {
        &self.ppu
    }
}

} // verus!
