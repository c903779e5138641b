//! A picture of the character ROM: the 256 tiles of one pattern table, drawn
//! side by side into an RGB image.

use vstd::prelude::*;

verus! {

/// Width of the image in pixels.
pub const WIDTH: usize = 512;

/// Height of the image in pixels.
pub const HEIGHT: usize = 240;

/// Bytes of the image: three per pixel.
pub const SHEET_BYTES: usize = 3 * WIDTH * HEIGHT;

/// Bytes of one pattern table: 256 tiles of 16 bytes.
pub const BANK_BYTES: usize = 0x1000;

/// Tiles drawn in one row of the image.
pub const TILES_PER_ROW: usize = 25;

/// Pixels from one tile's corner to the next, across and down: the eight of
/// the tile and a gap of two.
pub const PITCH: usize = 10;

/// One of the two pattern tables of the character ROM.
#[derive(PartialEq, Eq, Structural, Copy, Clone, Debug)]
pub enum Bank {
    Left,
    Right,
}

impl Bank {
    /// Where the pattern table starts in the character ROM.
    pub open spec fn offset(self) -> int {
        match self {
            Bank::Left => 0,
            Bank::Right => 0x1000,
        }
    }

    /// Where the pattern table starts in the character ROM.
    pub fn start(self) -> (at: usize)
        ensures
            at == self.offset(),
    {
        match self {
            Bank::Left => 0,
            Bank::Right => 0x1000,
        }
    }
}

/// The system palette: the colour, as red, green and blue, that each of the
/// 64 colour numbers stands for. Numbers above 63 stand for black.
pub open spec fn system_palette(index: u8) -> (u8, u8, u8) {
    match index {
        0x00 => (0x80, 0x80, 0x80),
        0x01 => (0x00, 0x3d, 0xa6),
        0x02 => (0x00, 0x12, 0xb0),
        0x03 => (0x44, 0x00, 0x96),
        0x04 => (0xa1, 0x00, 0x5e),
        0x05 => (0xc7, 0x00, 0x28),
        0x06 => (0xba, 0x06, 0x00),
        0x07 => (0x8c, 0x17, 0x00),
        0x08 => (0x5c, 0x2f, 0x00),
        0x09 => (0x10, 0x45, 0x00),
        0x0a => (0x05, 0x4a, 0x00),
        0x0b => (0x00, 0x47, 0x2e),
        0x0c => (0x00, 0x41, 0x66),
        0x0d => (0x00, 0x00, 0x00),
        0x0e => (0x05, 0x05, 0x05),
        0x0f => (0x05, 0x05, 0x05),
        0x10 => (0xc7, 0xc7, 0xc7),
        0x11 => (0x00, 0x77, 0xff),
        0x12 => (0x21, 0x55, 0xff),
        0x13 => (0x82, 0x37, 0xfa),
        0x14 => (0xeb, 0x2f, 0xb5),
        0x15 => (0xff, 0x29, 0x50),
        0x16 => (0xff, 0x22, 0x00),
        0x17 => (0xd6, 0x32, 0x00),
        0x18 => (0xc4, 0x62, 0x00),
        0x19 => (0x35, 0x80, 0x00),
        0x1a => (0x05, 0x8f, 0x00),
        0x1b => (0x00, 0x8a, 0x55),
        0x1c => (0x00, 0x99, 0xcc),
        0x1d => (0x21, 0x21, 0x21),
        0x1e => (0x09, 0x09, 0x09),
        0x1f => (0x09, 0x09, 0x09),
        0x20 => (0xff, 0xff, 0xff),
        0x21 => (0x0f, 0xd7, 0xff),
        0x22 => (0x69, 0xa2, 0xff),
        0x23 => (0xd4, 0x80, 0xff),
        0x24 => (0xff, 0x45, 0xf3),
        0x25 => (0xff, 0x61, 0x8b),
        0x26 => (0xff, 0x88, 0x33),
        0x27 => (0xff, 0x9c, 0x12),
        0x28 => (0xfa, 0xbc, 0x20),
        0x29 => (0x9f, 0xe3, 0x0e),
        0x2a => (0x2b, 0xf0, 0x35),
        0x2b => (0x0c, 0xf0, 0xa4),
        0x2c => (0x05, 0xfb, 0xff),
        0x2d => (0x5e, 0x5e, 0x5e),
        0x2e => (0x0d, 0x0d, 0x0d),
        0x2f => (0x0d, 0x0d, 0x0d),
        0x30 => (0xff, 0xff, 0xff),
        0x31 => (0xa6, 0xfc, 0xff),
        0x32 => (0xb3, 0xec, 0xff),
        0x33 => (0xda, 0xab, 0xeb),
        0x34 => (0xff, 0xa8, 0xf9),
        0x35 => (0xff, 0xab, 0xb3),
        0x36 => (0xff, 0xd2, 0xb0),
        0x37 => (0xff, 0xef, 0xa6),
        0x38 => (0xff, 0xf7, 0x9c),
        0x39 => (0xd7, 0xe8, 0x95),
        0x3a => (0xa6, 0xed, 0xaf),
        0x3b => (0xa2, 0xf2, 0xda),
        0x3c => (0x99, 0xff, 0xfc),
        0x3d => (0xdd, 0xdd, 0xdd),
        0x3e => (0x11, 0x11, 0x11),
        0x3f => (0x11, 0x11, 0x11),
        _ => (0x00, 0x00, 0x00),
    }
}

/// The colour of the system palette with the given number.
pub fn system_color(index: u8) -> (rgb: (u8, u8, u8))
    ensures
        rgb == system_palette(index),
{
    match index {
        0x00 => (0x80, 0x80, 0x80),
        0x01 => (0x00, 0x3d, 0xa6),
        0x02 => (0x00, 0x12, 0xb0),
        0x03 => (0x44, 0x00, 0x96),
        0x04 => (0xa1, 0x00, 0x5e),
        0x05 => (0xc7, 0x00, 0x28),
        0x06 => (0xba, 0x06, 0x00),
        0x07 => (0x8c, 0x17, 0x00),
        0x08 => (0x5c, 0x2f, 0x00),
        0x09 => (0x10, 0x45, 0x00),
        0x0a => (0x05, 0x4a, 0x00),
        0x0b => (0x00, 0x47, 0x2e),
        0x0c => (0x00, 0x41, 0x66),
        0x0d => (0x00, 0x00, 0x00),
        0x0e => (0x05, 0x05, 0x05),
        0x0f => (0x05, 0x05, 0x05),
        0x10 => (0xc7, 0xc7, 0xc7),
        0x11 => (0x00, 0x77, 0xff),
        0x12 => (0x21, 0x55, 0xff),
        0x13 => (0x82, 0x37, 0xfa),
        0x14 => (0xeb, 0x2f, 0xb5),
        0x15 => (0xff, 0x29, 0x50),
        0x16 => (0xff, 0x22, 0x00),
        0x17 => (0xd6, 0x32, 0x00),
        0x18 => (0xc4, 0x62, 0x00),
        0x19 => (0x35, 0x80, 0x00),
        0x1a => (0x05, 0x8f, 0x00),
        0x1b => (0x00, 0x8a, 0x55),
        0x1c => (0x00, 0x99, 0xcc),
        0x1d => (0x21, 0x21, 0x21),
        0x1e => (0x09, 0x09, 0x09),
        0x1f => (0x09, 0x09, 0x09),
        0x20 => (0xff, 0xff, 0xff),
        0x21 => (0x0f, 0xd7, 0xff),
        0x22 => (0x69, 0xa2, 0xff),
        0x23 => (0xd4, 0x80, 0xff),
        0x24 => (0xff, 0x45, 0xf3),
        0x25 => (0xff, 0x61, 0x8b),
        0x26 => (0xff, 0x88, 0x33),
        0x27 => (0xff, 0x9c, 0x12),
        0x28 => (0xfa, 0xbc, 0x20),
        0x29 => (0x9f, 0xe3, 0x0e),
        0x2a => (0x2b, 0xf0, 0x35),
        0x2b => (0x0c, 0xf0, 0xa4),
        0x2c => (0x05, 0xfb, 0xff),
        0x2d => (0x5e, 0x5e, 0x5e),
        0x2e => (0x0d, 0x0d, 0x0d),
        0x2f => (0x0d, 0x0d, 0x0d),
        0x30 => (0xff, 0xff, 0xff),
        0x31 => (0xa6, 0xfc, 0xff),
        0x32 => (0xb3, 0xec, 0xff),
        0x33 => (0xda, 0xab, 0xeb),
        0x34 => (0xff, 0xa8, 0xf9),
        0x35 => (0xff, 0xab, 0xb3),
        0x36 => (0xff, 0xd2, 0xb0),
        0x37 => (0xff, 0xef, 0xa6),
        0x38 => (0xff, 0xf7, 0x9c),
        0x39 => (0xd7, 0xe8, 0x95),
        0x3a => (0xa6, 0xed, 0xaf),
        0x3b => (0xa2, 0xf2, 0xda),
        0x3c => (0x99, 0xff, 0xfc),
        0x3d => (0xdd, 0xdd, 0xdd),
        0x3e => (0x11, 0x11, 0x11),
        0x3f => (0x11, 0x11, 0x11),
        _ => (0x00, 0x00, 0x00),
    }
}

/// The colour a pixel is drawn in, by its two-bit value.
pub open spec fn pixel_palette(value: u8) -> (u8, u8, u8) {
    if value == 0 {
        system_palette(0x01)
    } else if value == 1 {
        system_palette(0x23)
    } else if value == 2 {
        system_palette(0x27)
    } else {
        system_palette(0x30)
    }
}

/// The two-bit value of the pixel in column `col` of a tile row, whose two
/// bit planes are the bytes `lo` and `hi`. Column 0 is the leftmost pixel and
/// bit 7 of the planes.
pub open spec fn plane_pixel(lo: u8, hi: u8, col: u8) -> u8 {
    (((hi >> ((7 - col) as u8)) & 1) << 1u8) | ((lo >> ((7 - col) as u8)) & 1)
}

/// One of the three bytes of a colour.
pub open spec fn channel(rgb: (u8, u8, u8), which: int) -> u8 {
    if which == 0 {
        rgb.0
    } else if which == 1 {
        rgb.1
    } else {
        rgb.2
    }
}

/// Whether the pixel at `(x, y)` of the image belongs to a tile, counting the
/// tiles before number `tiles`, the rows before `rows` of that tile, and the
/// columns before `cols` of that row.
///
/// Tiles lie on a grid of 10 by 10 pixels, 25 to a row of the image, each in
/// the top left 8 by 8 pixels of its cell.
pub open spec fn painted(tiles: int, rows: int, cols: int, x: int, y: int) -> bool {
    let tile = 25 * (y / 10) + x / 10;
    let row = y % 10;
    let col = x % 10;
    &&& x / 10 < 25
    &&& row < 8
    &&& col < 8
    &&& (tile < tiles || (tile == tiles && (row < rows || (row == rows && col < cols))))
}

/// The byte at place `k` of the image of the pattern table at `base`, once
/// the tiles, rows and columns that `painted` counts have been drawn: a byte
/// of the pixel's colour where the pixel is drawn, 0 elsewhere.
pub open spec fn sheet_byte(
    rom: Seq<u8>,
    base: int,
    tiles: int,
    rows: int,
    cols: int,
    k: int,
) -> u8 {
    let x = (k / 3) % 512;
    let y = (k / 3) / 512;
    let at = base + 16 * (25 * (y / 10) + x / 10) + y % 10;
    if painted(tiles, rows, cols, x, y) {
        channel(pixel_palette(plane_pixel(rom[at], rom[at + 8], (x % 10) as u8)), k % 3)
    } else {
        0
    }
}

/// The image of a pattern table: all of its 256 tiles drawn.
pub open spec fn sheet(rom: Seq<u8>, bank: Bank) -> Seq<u8> {
    Seq::new(SHEET_BYTES as nat, |k: int| sheet_byte(rom, bank.offset(), 256, 0, 0, k))
}

/// The colour a pixel is drawn in, by its two-bit value.
pub fn pixel_color(value: u8) -> (rgb: (u8, u8, u8))
    ensures
        rgb == pixel_palette(value),
{
    match value {
        0 => system_color(0x01),
        1 => system_color(0x23),
        2 => system_color(0x27),
        _ => system_color(0x30),
    }
}

/// Sets the pixel at `(x, y)` of an image to a colour.
fn set_pixels(x: usize, y: usize, color: (u8, u8, u8), tiles: &mut Vec<u8>)
    requires
        x < WIDTH,
        y < HEIGHT,
        old(tiles)@.len() == SHEET_BYTES,
    ensures
        final(tiles)@ == old(tiles)@.update(3 * (WIDTH * y + x), color.0).update(
            3 * (WIDTH * y + x) + 1,
            color.1,
        ).update(3 * (WIDTH * y + x) + 2, color.2),
{
    let index = 3 * (WIDTH * y + x);
    tiles[index] = color.0;
    tiles[index + 1] = color.1;
    tiles[index + 2] = color.2;
}

/// Drawing one more pixel of the tile in hand changes the image in the three
/// bytes of that pixel and nowhere else.
proof fn lemma_draw_pixel(rom: Seq<u8>, base: int, tile: int, row: int, col: int, k: int)
    requires
        0 <= tile < 256,
        0 <= row < 8,
        0 <= col < 8,
        0 <= k < SHEET_BYTES,
    ensures
        ({
            let x = 10 * (tile % 25) + col;
            let y = 10 * (tile / 25) + row;
            let first = 3 * (512 * y + x);
            let at = base + 16 * tile + row;
            if first <= k < first + 3 {
                sheet_byte(rom, base, tile, row, col + 1, k) == channel(
                    pixel_palette(plane_pixel(rom[at], rom[at + 8], col as u8)),
                    k - first,
                )
            } else {
                sheet_byte(rom, base, tile, row, col + 1, k) == sheet_byte(
                    rom,
                    base,
                    tile,
                    row,
                    col,
                    k,
                )
            }
        }),
{
}

/// A row that is full is the next row not yet begun, and a tile that is full
/// is the next tile not yet begun.
proof fn lemma_draw_carry(rom: Seq<u8>, base: int, tile: int, row: int, k: int)
    requires
        0 <= row < 8,
        0 <= k,
    ensures
        sheet_byte(rom, base, tile, row, 8, k) == sheet_byte(rom, base, tile, row + 1, 0, k),
        sheet_byte(rom, base, tile, 8, 0, k) == sheet_byte(rom, base, tile + 1, 0, 0, k),
        sheet_byte(rom, base, 0, 0, 0, k) == 0,
{
}

/// Draws the 256 tiles of one pattern table of a character ROM into an RGB
/// image of 512 by 240 pixels, three bytes to the pixel, row after row.
///
/// Gives `None` exactly when the ROM ends before the pattern table does.
pub fn tile_bank(rom: &[u8], bank: Bank) -> (res: Option<Vec<u8>>)
    ensures
        res is Some <==> rom@.len() >= bank.offset() + BANK_BYTES,
        res matches Some(tiles) ==> tiles@ == sheet(rom@, bank),
{
    let base = bank.start();
    if rom.len() < base + BANK_BYTES {
        return None;
    }
    let mut tiles: Vec<u8> = vec![0u8; SHEET_BYTES];
    assert forall|k: int| 0 <= k < SHEET_BYTES implies tiles@[k] == sheet_byte(
        rom@,
        base as int,
        0,
        0,
        0,
        k,
    ) by {
        lemma_draw_carry(rom@, base as int, 0, 0, k);
    }
    let mut tilen: usize = 0;
    while tilen < 256
        invariant
            tilen <= 256,
            base == bank.offset(),
            rom@.len() >= base + BANK_BYTES,
            tiles@.len() == SHEET_BYTES,
            forall|k: int|
                0 <= k < SHEET_BYTES ==> tiles@[k] == sheet_byte(
                    rom@,
                    base as int,
                    tilen as int,
                    0,
                    0,
                    k,
                ),
        decreases 256 - tilen,
    {
        let x = PITCH * (tilen % TILES_PER_ROW);
        let y = PITCH * (tilen / TILES_PER_ROW);
        let tilei = 16 * tilen + base;
        let mut i: usize = 0;
        while i < 8
            invariant
                i <= 8,
                tilen < 256,
                x == 10 * (tilen % 25),
                y == 10 * (tilen / 25),
                tilei == 16 * tilen + base,
                base <= 0x1000,
                rom@.len() >= base + BANK_BYTES,
                tiles@.len() == SHEET_BYTES,
                forall|k: int|
                    0 <= k < SHEET_BYTES ==> tiles@[k] == sheet_byte(
                        rom@,
                        base as int,
                        tilen as int,
                        i as int,
                        0,
                        k,
                    ),
            decreases 8 - i,
        {
            let lo = rom[tilei + i];
            let hi = rom[tilei + i + 8];
            let mut j: u8 = 0;
            while j < 8
                invariant
                    j <= 8,
                    i < 8,
                    tilen < 256,
                    x == 10 * (tilen % 25),
                    y == 10 * (tilen / 25),
                    base <= 0x1000,
                    rom@.len() >= base + BANK_BYTES,
                    lo == rom@[base + 16 * tilen + i],
                    hi == rom@[base + 16 * tilen + i + 8],
                    tiles@.len() == SHEET_BYTES,
                    forall|k: int|
                        0 <= k < SHEET_BYTES ==> tiles@[k] == sheet_byte(
                            rom@,
                            base as int,
                            tilen as int,
                            i as int,
                            j as int,
                            k,
                        ),
                decreases 8 - j,
            {
                let shift: u8 = 7 - j;
                let value = (((hi >> shift) & 1) << 1u8) | ((lo >> shift) & 1);
                let color = pixel_color(value);
                set_pixels(x + j as usize, y + i, color, &mut tiles);
                assert forall|k: int| 0 <= k < SHEET_BYTES implies tiles@[k] == sheet_byte(
                    rom@,
                    base as int,
                    tilen as int,
                    i as int,
                    j + 1,
                    k,
                ) by {
                    lemma_draw_pixel(rom@, base as int, tilen as int, i as int, j as int, k);
                }
                j += 1;
            }
            assert forall|k: int| 0 <= k < SHEET_BYTES implies tiles@[k] == sheet_byte(
                rom@,
                base as int,
                tilen as int,
                i + 1,
                0,
                k,
            ) by {
                lemma_draw_carry(rom@, base as int, tilen as int, i as int, k);
            }
            i += 1;
        }
        assert forall|k: int| 0 <= k < SHEET_BYTES implies tiles@[k] == sheet_byte(
            rom@,
            base as int,
            tilen + 1,
            0,
            0,
            k,
        ) by {
            lemma_draw_carry(rom@, base as int, tilen as int, 0, k);
        }
        tilen += 1;
    }
    assert(tiles@ =~= sheet(rom@, bank));
    Some(tiles)
}

} // verus!
