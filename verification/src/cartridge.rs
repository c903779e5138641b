//! Cartridge images: a 16-byte header, an optional 512-byte trainer, the
//! program ROM in banks of 16 KB and the character ROM in banks of 8 KB.

use crate::bits::has_flag;
use vstd::prelude::*;
use vstd::slice::{slice_subrange, slice_to_vec};

verus! {

/// Bytes of the header.
pub const HEADER_SIZE: usize = 16;

/// Bytes of the trainer, where the image has one.
pub const TRAINER_SIZE: usize = 512;

/// Bytes of one bank of program ROM.
pub const PRG_BANK_SIZE: usize = 0x4000;

/// Bytes of one bank of character ROM.
pub const CHR_BANK_SIZE: usize = 0x2000;

/// Bit 2 of header byte 6: a trainer precedes the program ROM.
pub const TRAINER_FLAG: u8 = 0x04;

/// Bit 7 of header byte 7: the header is of the extended kind.
pub const EXTENDED_FLAG: u8 = 0x80;

/// Why an image cannot be loaded.
#[derive(PartialEq, Eq, Structural, Copy, Clone, Debug)]
pub enum CartridgeError {
    /// The image is shorter than its header, or than the header says.
    Truncated,
    /// The header is of the extended kind, which is not supported.
    ExtendedHeader,
}

/// The two ROMs of a cartridge.
#[derive(PartialEq, Eq, Debug)]
pub struct Cartridge {
    pub prg_rom: Vec<u8>,
    pub chr_rom: Vec<u8>,
}

/// Where the program ROM starts in an image with a full header.
pub open spec fn prg_start(rom: Seq<u8>) -> int {
    if has_flag(rom[6], TRAINER_FLAG) {
        HEADER_SIZE + TRAINER_SIZE
    } else {
        HEADER_SIZE as int
    }
}

/// Where the character ROM starts: behind as many banks of program ROM as
/// header byte 4 counts.
pub open spec fn chr_start(rom: Seq<u8>) -> int {
    prg_start(rom) + rom[4] * PRG_BANK_SIZE
}

/// Where the character ROM ends: behind as many of its banks as header byte 5
/// counts.
pub open spec fn chr_end(rom: Seq<u8>) -> int {
    chr_start(rom) + rom[5] * CHR_BANK_SIZE
}

/// What is wrong with an image, if anything. A header that is not all there
/// is reported before the extended kind, and that before a missing body.
pub open spec fn defect(rom: Seq<u8>) -> Option<CartridgeError> {
    if rom.len() < HEADER_SIZE {
        Some(CartridgeError::Truncated)
    } else if has_flag(rom[7], EXTENDED_FLAG) {
        Some(CartridgeError::ExtendedHeader)
    } else if rom.len() < chr_end(rom) {
        Some(CartridgeError::Truncated)
    } else {
        None
    }
}

/// Takes the program ROM and the character ROM out of a cartridge image.
///
/// Fails exactly when the image has a defect, and names it.
pub fn parse(rom: &[u8]) -> (res: Result<Cartridge, CartridgeError>)
    ensures
        match res {
            Ok(cart) => {
                &&& defect(rom@) is None
                &&& cart.prg_rom@ == rom@.subrange(prg_start(rom@), chr_start(rom@))
                &&& cart.chr_rom@ == rom@.subrange(chr_start(rom@), chr_end(rom@))
            },
            Err(e) => defect(rom@) == Some(e),
        },
{
    if rom.len() < HEADER_SIZE {
        return Err(CartridgeError::Truncated);
    }
    if rom[7] & EXTENDED_FLAG == EXTENDED_FLAG {
        return Err(CartridgeError::ExtendedHeader);
    }
    let prg_size = rom[4] as usize * PRG_BANK_SIZE;
    let prg_start = HEADER_SIZE + if rom[6] & TRAINER_FLAG == TRAINER_FLAG {
        TRAINER_SIZE
    } else {
        0
    };
    let chr_size = rom[5] as usize * CHR_BANK_SIZE;
    let chr_start = prg_start + prg_size;
    let chr_end = chr_start + chr_size;
    if rom.len() < chr_end {
        return Err(CartridgeError::Truncated);
    }
    Ok(
        Cartridge {
            prg_rom: slice_to_vec(slice_subrange(rom, prg_start, chr_start)),
            chr_rom: slice_to_vec(slice_subrange(rom, chr_start, chr_end)),
        },
    )
}

} // verus!
