use nes_core::mem::Memory;
use nes_core::ppu::regs::Control;
use nes_core::ppu::{Mirroring, Ppu, PpuError};

fn bus() -> Memory {
    let char_rom: Vec<u8> = (0..0x2000usize).map(|i| (i % 253) as u8).collect();
    Memory::new(Ppu::new(char_rom, Mirroring::Vertical))
}

#[test]
fn ram_starts_zeroed() {
    let mut mem = bus();
    for addr in [0x0000u16, 0x0001, 0x00ff, 0x0100, 0x07ff, 0x0800, 0x1fff] {
        assert_eq!(mem.read8(addr), 0);
    }
}

#[test]
fn ram_is_read_back() {
    let mut mem = bus();
    assert_eq!(mem.write8(0x0000, 0x11), Ok(()));
    assert_eq!(mem.write8(0x07ff, 0x22), Ok(()));
    assert_eq!(mem.write8(0x0123, 0x33), Ok(()));
    assert_eq!(mem.read8(0x0000), 0x11);
    assert_eq!(mem.read8(0x07ff), 0x22);
    assert_eq!(mem.read8(0x0123), 0x33);
    assert_eq!(mem.read8(0x0124), 0x00);
}

#[test]
fn ram_is_mirrored_every_0x800_bytes() {
    let mut mem = bus();
    mem.write8(0x0005, 0xaa).unwrap();
    assert_eq!(mem.read8(0x0805), 0xaa);
    assert_eq!(mem.read8(0x1005), 0xaa);
    assert_eq!(mem.read8(0x1805), 0xaa);
    mem.write8(0x1fff, 0xbb).unwrap();
    assert_eq!(mem.read8(0x07ff), 0xbb);
    mem.write8(0x0800, 0xcc).unwrap();
    assert_eq!(mem.read8(0x0000), 0xcc);
}

#[test]
fn read16_is_little_endian() {
    let mut mem = bus();
    mem.write8(0x0010, 0x34).unwrap();
    mem.write8(0x0011, 0x12).unwrap();
    assert_eq!(mem.read16(0x0010), 0x1234);
    assert_eq!(mem.read16(0x0011), 0x0012);
    assert_eq!(mem.read16(0x000f), 0x3400);
}

#[test]
fn read16_crosses_the_ram_mirror() {
    let mut mem = bus();
    mem.write8(0x07ff, 0xcd).unwrap();
    mem.write8(0x0000, 0xab).unwrap();
    assert_eq!(mem.read16(0x07ff), 0xabcd);
}

#[test]
fn read16_wraps_at_the_end_of_the_address_space() {
    let mut mem = bus();
    mem.write8(0x0000, 0x77).unwrap();
    // 0xffff is unmapped and reads 0; the high byte comes from 0x0000.
    assert_eq!(mem.read16(0xffff), 0x7700);
}

#[test]
fn unmapped_addresses_read_zero_and_drop_writes() {
    let mut mem = bus();
    for addr in [0x2008u16, 0x3000, 0x4000, 0x4016, 0x8000, 0xfffe, 0xffff] {
        assert_eq!(mem.write8(addr, 0x5a), Ok(()));
        assert_eq!(mem.read8(addr), 0);
    }
    assert_eq!(mem.read8(0x0000), 0);
}

#[test]
fn write_only_ports_read_zero() {
    let mut mem = bus();
    for addr in [0x2000u16, 0x2001, 0x2003, 0x2005, 0x2006] {
        mem.write8(addr, 0xff).unwrap();
        assert_eq!(mem.read8(addr), 0);
    }
}

#[test]
fn status_port_reads_status_and_drops_writes() {
    let mut ppu = Ppu::new(Vec::new(), Mirroring::Vertical);
    ppu.set_vblank(true);
    let mut mem = Memory::new(ppu);
    assert_eq!(mem.write8(0x2002, 0x00), Ok(()));
    assert_eq!(mem.read8(0x2002), 0x80);
    assert_eq!(mem.read8(0x2002), 0x00);
}

#[test]
fn video_memory_is_reached_through_the_address_and_data_ports() {
    let mut mem = bus();
    mem.write8(0x2006, 0x21).unwrap();
    mem.write8(0x2006, 0x08).unwrap();
    mem.write8(0x2007, 0xde).unwrap();
    mem.write8(0x2007, 0xad).unwrap();
    mem.write8(0x2006, 0x21).unwrap();
    mem.write8(0x2006, 0x08).unwrap();
    assert_eq!(mem.read8(0x2007), 0x00);
    assert_eq!(mem.read8(0x2007), 0xde);
    assert_eq!(mem.read8(0x2007), 0xad);
}

#[test]
fn status_read_over_the_bus_resets_the_address_latch() {
    let mut mem = bus();
    mem.write8(0x2006, 0x3f).unwrap();
    mem.read8(0x2002);
    mem.write8(0x2006, 0x23).unwrap();
    mem.write8(0x2006, 0x00).unwrap();
    mem.write8(0x2007, 0x99).unwrap();
    mem.read8(0x2002);
    mem.write8(0x2006, 0x23).unwrap();
    mem.write8(0x2006, 0x00).unwrap();
    mem.read8(0x2007);
    assert_eq!(mem.read8(0x2007), 0x99);
}

#[test]
fn sprite_memory_is_reached_through_its_ports() {
    let mut mem = bus();
    mem.write8(0x2003, 0x40).unwrap();
    mem.write8(0x2004, 0x0a).unwrap();
    mem.write8(0x2004, 0x0b).unwrap();
    mem.write8(0x2003, 0x40).unwrap();
    assert_eq!(mem.read8(0x2004), 0x0a);
    mem.write8(0x2003, 0x41).unwrap();
    assert_eq!(mem.read8(0x2004), 0x0b);
}

#[test]
fn control_port_sets_the_increment() {
    let mut mem = bus();
    mem.write8(0x2000, Control::I).unwrap();
    mem.write8(0x2006, 0x20).unwrap();
    mem.write8(0x2006, 0x00).unwrap();
    mem.write8(0x2007, 0x01).unwrap();
    mem.write8(0x2007, 0x02).unwrap();
    mem.write8(0x2000, 0x00).unwrap();
    mem.write8(0x2006, 0x20).unwrap();
    mem.write8(0x2006, 0x20).unwrap();
    mem.read8(0x2007);
    assert_eq!(mem.read8(0x2007), 0x02);
}

#[test]
fn control_port_raises_the_interrupt_request() {
    let mut ppu = Ppu::new(Vec::new(), Mirroring::Vertical);
    ppu.set_vblank(true);
    let mut mem = Memory::new(ppu);
    assert!(!mem.ppu().nmi());
    mem.write8(0x2000, Control::V).unwrap();
    assert!(mem.ppu().nmi());
}

#[test]
fn writing_character_rom_over_the_bus_fails() {
    let mut mem = bus();
    mem.write8(0x2006, 0x10).unwrap();
    mem.write8(0x2006, 0x20).unwrap();
    assert_eq!(mem.write8(0x2007, 0x01), Err(PpuError::CharRomWrite { addr: 0x1020 }));
    // RAM and the other ports still work.
    assert_eq!(mem.write8(0x0000, 0x01), Ok(()));
    assert_eq!(mem.write8(0x2001, 0x01), Ok(()));
}

#[test]
fn character_rom_is_read_through_the_data_port() {
    let mut mem = bus();
    mem.write8(0x2006, 0x01).unwrap();
    mem.write8(0x2006, 0x00).unwrap();
    assert_eq!(mem.read8(0x2007), 0x00);
    assert_eq!(mem.read8(0x2007), (0x0100 % 253) as u8);
    assert_eq!(mem.read8(0x2007), (0x0101 % 253) as u8);
}

#[test]
fn scroll_and_mask_ports_accept_writes() {
    let mut mem = bus();
    assert_eq!(mem.write8(0x2001, 0x1e), Ok(()));
    assert_eq!(mem.write8(0x2005, 0x10), Ok(()));
    assert_eq!(mem.write8(0x2005, 0x20), Ok(()));
    assert_eq!(mem.read8(0x2005), 0);
}
