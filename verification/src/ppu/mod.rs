//! The picture processor: registers, sprite memory, video memory and the
//! character ROM, as the processor sees them through the register ports.

pub mod regs;

use crate::bits::{
    high_byte, lemma_byte, lemma_with_flag_has, lemma_with_flag_keeps, low_byte, word,
};
use crate::ppu::regs::{Addr, Control, Mask, Scroll, Status, ADDR_MAX};
use vstd::prelude::*;

verus! {

/// Bytes of sprite attribute memory: 64 sprites of 4 bytes.
pub const OAM_SIZE: usize = 256;

/// Bytes of internal video memory: two nametables of 1 KB.
pub const VRAM_SIZE: usize = 2048;

/// How the cartridge wires the four logical nametables onto video memory.
#[derive(PartialEq, Eq, Structural, Copy, Clone, Debug)]
pub enum Mirroring {
    Vertical,
    Horizontal,
    FourScreen,
}

/// Why the picture processor refused an access.
#[derive(PartialEq, Eq, Structural, Copy, Clone, Debug)]
pub enum PpuError {
    /// A data write while the video address pointed into the character ROM,
    /// which has no write path.
    CharRomWrite { addr: u16 },
}

/// The cell of video memory that stands behind a nametable address
/// (`0x2000..=0x2fff`), counted from the start of video memory.
///
/// Nametable 0 is never moved. Vertical mirroring folds nametables 2 and 3
/// onto 0 and 1; horizontal mirroring folds 1 onto 0 and 2, 3 onto the second
/// kilobyte; four-screen wiring folds nothing.
pub open spec fn mirror_cell(mirroring: Mirroring, addr: u16) -> int {
    let offset = addr - 0x2000;
    let table = offset / 0x400;
    match mirroring {
        Mirroring::Vertical => if table == 2 || table == 3 {
            offset - 0x800
        } else {
            offset
        },
        Mirroring::Horizontal => if table == 1 || table == 2 {
            offset - 0x400
        } else if table == 3 {
            offset - 0x800
        } else {
            offset
        },
        Mirroring::FourScreen => offset,
    }
}

/// What a memory holds at `index`: the byte there, or 0 where the
/// index lies outside it.
pub open spec fn byte_or_zero(mem: Seq<u8>, index: int) -> u8 {
    if 0 <= index < mem.len() {
        mem[index]
    } else {
        0
    }
}

/// The picture processor as a mathematical value.
pub struct PpuState {
    pub ctrl: Control,
    pub mask: Mask,
    pub stat: Status,
    pub scroll: Scroll,
    pub addr: Addr,
    pub oam_addr: u8,
    pub oam: Seq<u8>,
    pub vram: Seq<u8>,
    pub char_rom: Seq<u8>,
    pub mirroring: Mirroring,
    pub nmi: bool,
    pub data_buf: u8,
}

impl PpuState {
    /// The state is well formed: the memories have their fixed sizes and the
    /// video address fits in 14 bits.
    pub open spec fn wf(self) -> bool {
        &&& self.oam.len() == OAM_SIZE
        &&& self.vram.len() == VRAM_SIZE
        &&& self.addr.raw <= ADDR_MAX
    }

    /// The state at power-on, for a given character ROM and wiring.
    pub open spec fn power_on(char_rom: Seq<u8>, mirroring: Mirroring) -> PpuState {
        PpuState {
            ctrl: Control { bits: 0 },
            mask: Mask { bits: 0 },
            stat: Status { bits: 0 },
            scroll: Scroll { x: 0, y: 0, latched: false },
            addr: Addr { raw: 0, hi: true },
            oam_addr: 0,
            oam: Seq::new(OAM_SIZE as nat, |i: int| 0u8),
            vram: Seq::new(VRAM_SIZE as nat, |i: int| 0u8),
            char_rom,
            mirroring,
            nmi: false,
            data_buf: 0,
        }
    }

    /// The byte that the video address `addr` stands for: a byte of the
    /// character ROM below `0x2000`, a byte of video memory behind the
    /// nametable mirroring up to `0x2fff`. An address that no stored byte
    /// stands behind reads as 0.
    pub open spec fn video_byte(self, addr: u16) -> u8 {
        if addr <= 0x1fff {
            byte_or_zero(self.char_rom, addr as int)
        } else if addr <= 0x2fff {
            byte_or_zero(self.vram, mirror_cell(self.mirroring, addr))
        } else {
            0
        }
    }

    /// Reading the status port gives the status byte, clears the
    /// vertical-blanking bit and makes the next scroll and address writes the
    /// first of their pairs.
    pub open spec fn read_stat(self) -> (u8, PpuState) {
        (
            self.stat.bits,
            PpuState {
                stat: self.stat.with(Status::V, false),
                scroll: Scroll { latched: false, ..self.scroll },
                addr: Addr { hi: true, ..self.addr },
                ..self
            },
        )
    }

    /// Reading the sprite data port gives the byte at the sprite address.
    pub open spec fn read_oam(self) -> u8 {
        byte_or_zero(self.oam, self.oam_addr as int)
    }

    /// Reading the data port moves the video address on. Up to `0x2fff` it
    /// gives the byte that the previous read left in the buffer and refills
    /// the buffer from the address it was made at; above, it gives 0 and
    /// leaves the buffer.
    pub open spec fn read_vram(self) -> (u8, PpuState) {
        let at = self.addr.raw;
        let moved = PpuState { addr: self.addr.after_increment(self.ctrl.increment()), ..self };
        if at <= 0x2fff {
            (self.data_buf, PpuState { data_buf: self.video_byte(at), ..moved })
        } else {
            (0, moved)
        }
    }

    /// Writing the control port replaces the register, and raises the
    /// interrupt flag where the write switches interrupts on during vertical
    /// blanking.
    pub open spec fn write_ctrl(self, val: u8) -> PpuState {
        let now = Control { bits: val };
        PpuState {
            ctrl: now,
            nmi: self.nmi || (!self.ctrl.wants_nmi() && now.wants_nmi() && self.stat.vblank()),
            ..self
        }
    }

    /// Writing the mask port replaces the register.
    pub open spec fn write_mask(self, val: u8) -> PpuState {
        PpuState { mask: Mask { bits: val }, ..self }
    }

    /// Writing the sprite address port replaces the sprite address.
    pub open spec fn write_oam_addr(self, val: u8) -> PpuState {
        PpuState { oam_addr: val, ..self }
    }

    /// Writing the sprite data port stores the byte at the sprite address and
    /// moves that address on by one, wrapping at 256.
    pub open spec fn write_oam_data(self, val: u8) -> PpuState {
        PpuState {
            oam: self.oam.update(self.oam_addr as int, val),
            oam_addr: ((self.oam_addr + 1) % 256) as u8,
            ..self
        }
    }

    /// Writing the scroll port sets one of the two positions, in turn.
    pub open spec fn write_scroll(self, val: u8) -> PpuState {
        PpuState { scroll: self.scroll.after_write(val), ..self }
    }

    /// Writing the address port sets one byte of the video address, in turn.
    pub open spec fn write_address(self, val: u8) -> PpuState {
        PpuState { addr: self.addr.after_write(val), ..self }
    }

    /// Writing the data port is refused while the video address points into
    /// the character ROM, and then changes nothing. Otherwise it moves the
    /// address on; a nametable address up to `0x2fff` with a cell of video
    /// memory behind it takes the byte, any other address drops it.
    pub open spec fn write_vram(self, val: u8) -> (Result<(), PpuError>, PpuState) {
        let at = self.addr.raw;
        if at <= 0x1fff {
            (Err(PpuError::CharRomWrite { addr: at }), self)
        } else {
            let cell = mirror_cell(self.mirroring, at);
            let vram = if at <= 0x2fff && cell < self.vram.len() {
                self.vram.update(cell, val)
            } else {
                self.vram
            };
            let addr = self.addr.after_increment(self.ctrl.increment());
            (Ok(()), PpuState { vram, addr, ..self })
        }
    }

    /// Setting the video address through the ports: a read of the status
    /// port, then a write of the high and one of the low byte to the address
    /// port.
    pub open spec fn set_address(self, addr: u16) -> PpuState {
        self.read_stat().1.write_address(high_byte(addr)).write_address(low_byte(addr))
    }

    /// Entering or leaving vertical blanking sets or clears the status bit.
    pub open spec fn set_vblank(self, on: bool) -> PpuState {
        PpuState { stat: self.stat.with(Status::V, on), ..self }
    }
}

/// Every port access keeps a well-formed state well formed: the memories keep
/// their sizes, and the video address keeps to 14 bits after every update.
pub proof fn lemma_accesses_keep_wf(s: PpuState, val: u8, on: bool)
    requires
        s.wf(),
    ensures
        s.read_stat().1.wf(),
        s.read_vram().1.wf(),
        s.write_ctrl(val).wf(),
        s.write_mask(val).wf(),
        s.write_oam_addr(val).wf(),
        s.write_oam_data(val).wf(),
        s.write_scroll(val).wf(),
        s.write_address(val).wf(),
        s.write_vram(val).1.wf(),
        s.set_vblank(on).wf(),
        PpuState::power_on(s.char_rom, s.mirroring).wf(),
{
}

/// Whatever the address register held, and whichever byte was due, a write
/// leaves an address of at most 14 bits.
pub proof fn lemma_address_write_is_masked(a: Addr, val: u8, amt: u16)
    ensures
        a.after_write(val).raw <= ADDR_MAX,
        a.after_increment(amt).raw <= ADDR_MAX,
{
}

/// Reading the status port clears the vertical-blanking bit and no other
/// status bit, and makes the next scroll and address writes the first of
/// their pairs. So the two bytes written to a port after the read are taken
/// as a fresh pair, whatever half-finished pair came before it: the address
/// becomes the word `hi`:`lo` cut to 14 bits, the scroll position `(x, y)`.
pub proof fn lemma_status_read_resets_latches(s: PpuState, hi: u8, lo: u8, x: u8, y: u8)
    ensures
        s.read_stat().0 == s.stat.bits,
        !s.read_stat().1.stat.vblank(),
        s.read_stat().1.stat.bits & 0x7f == s.stat.bits & 0x7f,
        s.read_stat().1.addr.hi,
        !s.read_stat().1.scroll.latched,
        s.read_stat().1.write_address(hi).write_address(lo).addr == (Addr {
            raw: (word(lo, hi) % 0x4000) as u16,
            hi: true,
        }),
        s.read_stat().1.write_scroll(x).write_scroll(y).scroll == (Scroll { x, y, latched: false }),
{
    lemma_with_flag_has(s.stat.bits, Status::V, false);
    lemma_with_flag_keeps(s.stat.bits, Status::V, false);
    lemma_byte(s.stat.bits);
    s.read_stat().1.addr.lemma_write_pair(hi, lo);
}

/// A byte written through the sprite data port is read back at the sprite
/// address it was written at, and the write moves that address on by one,
/// from 255 around to 0.
pub proof fn lemma_sprite_byte_is_read_back(s: PpuState, at: u8, val: u8)
    requires
        s.wf(),
    ensures
        s.write_oam_addr(at).write_oam_data(val).oam_addr == (at + 1) % 256,
        s.write_oam_addr(at).write_oam_data(val).write_oam_addr(at).read_oam() == val,
{
}

/// No access through a port takes an interrupt request back: once raised it
/// stays.
pub proof fn lemma_interrupt_request_stays(s: PpuState, val: u8, on: bool)
    requires
        s.nmi,
    ensures
        s.read_stat().1.nmi,
        s.read_vram().1.nmi,
        s.write_ctrl(val).nmi,
        s.write_mask(val).nmi,
        s.write_oam_addr(val).nmi,
        s.write_oam_data(val).nmi,
        s.write_scroll(val).nmi,
        s.write_address(val).nmi,
        s.write_vram(val).1.nmi,
        s.set_vblank(on).nmi,
{
}

/// A write to the control port raises the interrupt request exactly when the
/// port's top bit goes from clear to set while the vertical-blanking bit of
/// the status register is set.
pub proof fn lemma_interrupt_request_is_raised(s: PpuState, val: u8)
    requires
        !s.nmi,
    ensures
        s.write_ctrl(val).nmi <==> s.ctrl.bits < 0x80 && val >= 0x80 && s.stat.bits >= 0x80,
{
    lemma_byte(s.ctrl.bits);
    lemma_byte(val);
    lemma_byte(s.stat.bits);
}

/// Reads through the data port run one behind. A read made at an address up
/// to `0x2fff` gives what the buffer held before it and leaves in the buffer
/// the byte at that address.
pub proof fn lemma_read_is_one_behind(s: PpuState)
    requires
        s.addr.raw <= 0x2fff,
    ensures
        s.read_vram().0 == s.data_buf,
        s.read_vram().1.data_buf == s.video_byte(s.addr.raw),
        s.read_vram().1.addr.raw == (s.addr.raw + s.ctrl.increment()) % 0x4000,
{
}

/// The first read after the address was set into the character ROM gives the
/// buffer's earlier content, and only the second read gives the ROM's byte at
/// that address.
pub proof fn lemma_char_rom_read_takes_two(s: PpuState)
    requires
        s.addr.raw <= 0x1fff,
    ensures
        s.read_vram().0 == s.data_buf,
        s.read_vram().1.read_vram().0 == byte_or_zero(s.char_rom, s.addr.raw as int),
        PpuState::power_on(s.char_rom, s.mirroring).read_vram().0 == 0,
{
}

/// Under vertical mirroring an address in nametable 0 or 1 and the address
/// `0x800` above it stand for the same cell of video memory.
pub proof fn lemma_vertical_mirroring(addr: u16)
    requires
        0x2000 <= addr <= 0x27ff,
    ensures
        mirror_cell(Mirroring::Vertical, addr) == mirror_cell(
            Mirroring::Vertical,
            (addr + 0x800) as u16,
        ),
        0 <= mirror_cell(Mirroring::Vertical, addr) < VRAM_SIZE,
{
}

/// Under horizontal mirroring an address in nametable 0 or 2 and the address
/// `0x400` above it stand for the same cell of video memory.
pub proof fn lemma_horizontal_mirroring(addr: u16)
    requires
        0x2000 <= addr <= 0x23ff || 0x2800 <= addr <= 0x2bff,
    ensures
        mirror_cell(Mirroring::Horizontal, addr) == mirror_cell(
            Mirroring::Horizontal,
            (addr + 0x400) as u16,
        ),
        0 <= mirror_cell(Mirroring::Horizontal, addr) < VRAM_SIZE,
{
}

/// Vertical and horizontal mirroring send every nametable address to a cell
/// of video memory; four-screen wiring does so for nametables 0 and 1 only.
pub proof fn lemma_mirror_cell_in_range(mirroring: Mirroring, addr: u16)
    requires
        0x2000 <= addr <= 0x2fff,
    ensures
        0 <= mirror_cell(mirroring, addr) < 2 * VRAM_SIZE,
        mirroring != Mirroring::FourScreen || addr <= 0x27ff ==> mirror_cell(mirroring, addr)
            < VRAM_SIZE,
{
}

/// A byte written through the data port at a nametable address is the byte
/// that every address of the same cell stands for afterwards.
pub proof fn lemma_written_byte_is_read_back(s: PpuState, val: u8, other: u16)
    requires
        s.wf(),
        0x2000 <= s.addr.raw <= 0x2fff,
        0x2000 <= other <= 0x2fff,
        mirror_cell(s.mirroring, other) == mirror_cell(s.mirroring, s.addr.raw),
        mirror_cell(s.mirroring, other) < VRAM_SIZE,
    ensures
        s.write_vram(val).0 is Ok,
        s.write_vram(val).1.video_byte(other) == val,
{
}

/// Setting the video address through the ports sets it, whatever the
/// latches held before, and touches neither memory nor the read buffer nor
/// the control register.
pub proof fn lemma_set_address(s: PpuState, addr: u16)
    requires
        addr <= ADDR_MAX,
    ensures
        s.set_address(addr).addr == (Addr { raw: addr, hi: true }),
        s.set_address(addr).vram == s.vram,
        s.set_address(addr).oam == s.oam,
        s.set_address(addr).char_rom == s.char_rom,
        s.set_address(addr).mirroring == s.mirroring,
        s.set_address(addr).ctrl == s.ctrl,
        s.set_address(addr).data_buf == s.data_buf,
        s.set_address(addr).nmi == s.nmi,
{
    s.read_stat().1.addr.lemma_write_pair(high_byte(addr), low_byte(addr));
}

/// A byte written through the ports at one nametable address is read back
/// through the ports at every address of the same cell: after the address is
/// set to the second address, the first read brings the byte into the buffer
/// and the next read gives it. The next read has to be made at an address up
/// to `0x2fff` as well.
pub proof fn lemma_mirrored_write_is_read_back(s: PpuState, val: u8, first: u16, second: u16)
    requires
        s.wf(),
        0x2000 <= first <= 0x2fff,
        0x2000 <= second,
        second + s.ctrl.increment() <= 0x2fff,
        mirror_cell(s.mirroring, first) == mirror_cell(s.mirroring, second),
        mirror_cell(s.mirroring, first) < VRAM_SIZE,
    ensures
        s.set_address(first).write_vram(val).0 is Ok,
        s.set_address(first).write_vram(val).1.set_address(second).read_vram().1.read_vram().0
            == val,
{
    lemma_set_address(s, first);
    let written = s.set_address(first).write_vram(val).1;
    lemma_written_byte_is_read_back(s.set_address(first), val, second);
    lemma_set_address(written, second);
    lemma_read_is_one_behind(written.set_address(second));
}

/// Under vertical mirroring a byte written through the ports at an address
/// in nametable 0 or 1 is read back through the ports at the address `0x800`
/// above it; so `0x2000` and `0x2800` are one cell.
pub proof fn lemma_vertical_write_is_read_back(s: PpuState, val: u8, first: u16)
    requires
        s.wf(),
        s.mirroring == Mirroring::Vertical,
        0x2000 <= first,
        first + s.ctrl.increment() <= 0x27ff,
    ensures
        s.set_address(first).write_vram(val).0 is Ok,
        s.set_address(first).write_vram(val).1.set_address(
            (first + 0x800) as u16,
        ).read_vram().1.read_vram().0 == val,
{
    lemma_vertical_mirroring(first);
    lemma_mirrored_write_is_read_back(s, val, first, (first + 0x800) as u16);
}

/// Under horizontal mirroring a byte written through the ports at an
/// address in nametable 0 or 2 is read back through the ports at the address
/// `0x400` above it; so `0x2000` and `0x2400` are one cell.
pub proof fn lemma_horizontal_write_is_read_back(s: PpuState, val: u8, first: u16)
    requires
        s.wf(),
        s.mirroring == Mirroring::Horizontal,
        0x2000 <= first && first + s.ctrl.increment() <= 0x23ff || 0x2800 <= first && first
            + s.ctrl.increment() <= 0x2bff,
    ensures
        s.set_address(first).write_vram(val).0 is Ok,
        s.set_address(first).write_vram(val).1.set_address(
            (first + 0x400) as u16,
        ).read_vram().1.read_vram().0 == val,
{
    lemma_horizontal_mirroring(first);
    lemma_mirrored_write_is_read_back(s, val, first, (first + 0x400) as u16);
}

/// A write through the data port is refused exactly when the video address
/// points into the character ROM: under every mirroring, for every byte, and
/// without a change to the state.
pub proof fn lemma_char_rom_write_is_refused(s: PpuState, val: u8)
    ensures
        s.addr.raw <= 0x1fff ==> s.write_vram(val) == (
            Err::<(), PpuError>(PpuError::CharRomWrite { addr: s.addr.raw }),
            s,
        ),
        s.addr.raw > 0x1fff ==> s.write_vram(val).0 is Ok,
{
}

/// The picture processor.
pub struct Ppu {
    /// Control register.
    ctrl: Control,
    /// Mask register.
    mask: Mask,
    /// Status register.
    stat: Status,
    /// Scroll register.
    scroll: Scroll,
    /// Video address register.
    addr: Addr,
    /// Sprite memory address.
    oam_addr: u8,
    /// Sprite memory.
    oam_data: [u8; 256],
    /// Video memory.
    vram: [u8; 2048],
    /// Character ROM.
    char_rom: Vec<u8>,
    /// Nametable mirroring.
    mirroring: Mirroring,
    /// Interrupt request.
    nmi: bool,
    /// Read buffer of the data port.
    data_buf: u8,
}

impl View for Ppu {
    type V = PpuState;

    closed spec fn view(&self) -> PpuState {
        PpuState {
            ctrl: self.ctrl,
            mask: self.mask,
            stat: self.stat,
            scroll: self.scroll,
            addr: self.addr,
            oam_addr: self.oam_addr,
            oam: self.oam_data@,
            vram: self.vram@,
            char_rom: self.char_rom@,
            mirroring: self.mirroring,
            nmi: self.nmi,
            data_buf: self.data_buf,
        }
    }
}

impl Ppu {
    /// A picture processor at power-on, with the cartridge's character ROM
    /// and nametable wiring.
    pub fn new(char_rom: Vec<u8>, mirroring: Mirroring) -> (ppu: Self)
        ensures
            ppu@ == PpuState::power_on(char_rom@, mirroring),
            ppu@.wf(),
    {
        let ppu = Ppu {
            ctrl: Control::empty(),
            mask: Mask::empty(),
            stat: Status::empty(),
            scroll: Scroll::new(),
            addr: Addr::new(),
            oam_addr: 0,
            oam_data: [0u8; 256],
            vram: [0u8; 2048],
            char_rom,
            mirroring,
            nmi: false,
            data_buf: 0,
        };
        assert(ppu.oam_data@ =~= Seq::new(OAM_SIZE as nat, |i: int| 0u8));
        assert(ppu.vram@ =~= Seq::new(VRAM_SIZE as nat, |i: int| 0u8));
        ppu
    }

    /// Reads the status port.
    pub fn read_stat(&mut self) -> (bits: u8)
        ensures
            (bits, final(self)@) == old(self)@.read_stat(),
            old(self)@.wf() ==> final(self)@.wf(),
    {
        let bits = self.stat.bits();
        self.stat.remove(Status::V);
        self.scroll.reset_latch();
        self.addr.reset_latch();
        bits
    }

    /// Reads the sprite data port.
    pub fn read_oam(&self) -> (val: u8)
        ensures
            val == self@.read_oam(),
    {
        self.oam_data[self.oam_addr as usize]
    }

    /// Reads the data port.
    pub fn read_vram(&mut self) -> (val: u8)
        ensures
            (val, final(self)@) == old(self)@.read_vram(),
            old(self)@.wf() ==> final(self)@.wf(),
    {
        let addr = self.addr.raw;
        self.addr.increment(self.ctrl.increment_amt());
        if addr <= 0x2fff {
            let res = self.data_buf;
            self.data_buf = self.video_byte(addr);
            res
        } else {
            0
        }
    }

    /// Writes the control port.
    pub fn write_ctrl(&mut self, val: u8)
        ensures
            final(self)@ == old(self)@.write_ctrl(val),
            old(self)@.wf() ==> final(self)@.wf(),
    {
        let nmi = self.ctrl.nmi();
        self.ctrl.update(val);
        if !nmi && self.ctrl.nmi() && self.stat.in_vblank() {
            self.nmi = true;
        }
    }

    /// Writes the mask port.
    pub fn write_mask(&mut self, val: u8)
        ensures
            final(self)@ == old(self)@.write_mask(val),
            old(self)@.wf() ==> final(self)@.wf(),
    {
        self.mask.update(val);
    }

    /// Writes the sprite address port.
    pub fn write_oam_addr(&mut self, val: u8)
        ensures
            final(self)@ == old(self)@.write_oam_addr(val),
            old(self)@.wf() ==> final(self)@.wf(),
    {
        self.oam_addr = val;
    }

    /// Writes the sprite data port.
    pub fn write_oam_data(&mut self, val: u8)
        ensures
            final(self)@ == old(self)@.write_oam_data(val),
            old(self)@.wf() ==> final(self)@.wf(),
    {
        self.oam_data[self.oam_addr as usize] = val;
        self.oam_addr = self.oam_addr.wrapping_add(1);
    }

    /// Writes the scroll port.
    pub fn write_scroll(&mut self, val: u8)
        ensures
            final(self)@ == old(self)@.write_scroll(val),
            old(self)@.wf() ==> final(self)@.wf(),
    {
        self.scroll.set(val);
    }

    /// Writes the address port.
    pub fn write_address(&mut self, val: u8)
        ensures
            final(self)@ == old(self)@.write_address(val),
            old(self)@.wf() ==> final(self)@.wf(),
    {
        self.addr.set(val);
    }

    /// Writes the data port. The write is refused exactly when the video
    /// address points into the character ROM, whatever the mirroring.
    pub fn write_vram(&mut self, val: u8) -> (res: Result<(), PpuError>)
        ensures
            (res, final(self)@) == old(self)@.write_vram(val),
            res is Err <==> old(self)@.addr.raw <= 0x1fff,
            old(self)@.wf() ==> final(self)@.wf(),
    {
        let addr = self.addr.raw;
        if addr <= 0x1fff {
            return Err(PpuError::CharRomWrite { addr });
        }
        if addr <= 0x2fff {
            let cell = self.mirror(addr);
            if (cell as usize) < VRAM_SIZE {
                self.vram[cell as usize] = val;
            }
        }
        self.addr.increment(self.ctrl.increment_amt());
        Ok(())
    }

    /// Sets or clears the vertical-blanking bit of the status register.
    pub fn set_vblank(&mut self, on: bool)
        ensures
            final(self)@ == old(self)@.set_vblank(on),
            old(self)@.wf() ==> final(self)@.wf(),
    {
        self.stat.set(Status::V, on);
    }

    /// Whether an interrupt request is pending.
    pub fn nmi(&self) -> (pending: bool)
        ensures
            pending == self@.nmi,
    {
        self.nmi
    }

    /// The byte behind a video address, 0 where nothing is stored.
    fn video_byte(&self, addr: u16) -> (val: u8)
        ensures
            val == self@.video_byte(addr),
    {
        if addr <= 0x1fff {
            if (addr as usize) < self.char_rom.len() {
                self.char_rom[addr as usize]
            } else {
                0
            }
        } else if addr <= 0x2fff {
            let cell = self.mirror(addr);
            if (cell as usize) < VRAM_SIZE {
                self.vram[cell as usize]
            } else {
                0
            }
        } else {
            0
        }
    }

    /// The cell of video memory behind a nametable address.
    fn mirror(&self, addr: u16) -> (cell: u16)
        requires
            0x2000 <= addr <= 0x2fff,
        ensures
            cell == mirror_cell(self@.mirroring, addr),
    {
        let addr = addr - 0x2000;
        let nametable = addr / 0x400;
        match (self.mirroring, nametable) {
            (Mirroring::Vertical, 2 | 3) => addr - 0x800,
            (Mirroring::Horizontal, 1 | 2) => addr - 0x400,
            (Mirroring::Horizontal, 3) => addr - 0x800,
            _ => addr,
        }
    }
}

} // verus!
