use nes_core::tiles::{pixel_color, system_color, tile_bank, Bank, HEIGHT, SHEET_BYTES, WIDTH};

fn pixel(sheet: &[u8], x: usize, y: usize) -> (u8, u8, u8) {
    let at = 3 * (WIDTH * y + x);
    (sheet[at], sheet[at + 1], sheet[at + 2])
}

const BLACK: (u8, u8, u8) = (0, 0, 0);
const COLOR_0: (u8, u8, u8) = (0x00, 0x3d, 0xa6);
const COLOR_1: (u8, u8, u8) = (0xd4, 0x80, 0xff);
const COLOR_2: (u8, u8, u8) = (0xff, 0x9c, 0x12);
const COLOR_3: (u8, u8, u8) = (0xff, 0xff, 0xff);

#[test]
fn sheet_dimensions() {
    assert_eq!(WIDTH, 512);
    assert_eq!(HEIGHT, 240);
    assert_eq!(SHEET_BYTES, 368_640);
}

#[test]
fn system_palette_entries() {
    assert_eq!(system_color(0x00), (0x80, 0x80, 0x80));
    assert_eq!(system_color(0x01), (0x00, 0x3d, 0xa6));
    assert_eq!(system_color(0x0d), (0x00, 0x00, 0x00));
    assert_eq!(system_color(0x23), (0xd4, 0x80, 0xff));
    assert_eq!(system_color(0x27), (0xff, 0x9c, 0x12));
    assert_eq!(system_color(0x30), (0xff, 0xff, 0xff));
    assert_eq!(system_color(0x3f), (0x11, 0x11, 0x11));
    assert_eq!(system_color(0x40), (0x00, 0x00, 0x00));
    assert_eq!(system_color(0xff), (0x00, 0x00, 0x00));
}

#[test]
fn pixel_values_have_their_colours() {
    assert_eq!(pixel_color(0), COLOR_0);
    assert_eq!(pixel_color(1), COLOR_1);
    assert_eq!(pixel_color(2), COLOR_2);
    assert_eq!(pixel_color(3), COLOR_3);
}

#[test]
fn a_short_rom_gives_no_sheet() {
    assert_eq!(tile_bank(&[], Bank::Left), None);
    assert_eq!(tile_bank(&vec![0u8; 0x0fff], Bank::Left), None);
    assert_eq!(tile_bank(&vec![0u8; 0x1000], Bank::Right), None);
    assert_eq!(tile_bank(&vec![0u8; 0x1fff], Bank::Right), None);
    assert!(tile_bank(&vec![0u8; 0x1000], Bank::Left).is_some());
    assert!(tile_bank(&vec![0u8; 0x2000], Bank::Right).is_some());
}

#[test]
fn an_empty_bank_is_drawn_in_the_first_colour() {
    let sheet = tile_bank(&vec![0u8; 0x1000], Bank::Left).unwrap();
    assert_eq!(sheet.len(), SHEET_BYTES);
    assert_eq!(pixel(&sheet, 0, 0), COLOR_0);
    assert_eq!(pixel(&sheet, 7, 7), COLOR_0);
    // The gaps between tiles stay black.
    assert_eq!(pixel(&sheet, 8, 0), BLACK);
    assert_eq!(pixel(&sheet, 9, 9), BLACK);
    assert_eq!(pixel(&sheet, 0, 8), BLACK);
    // Tile 24 ends the first row; tile 25 starts the second.
    assert_eq!(pixel(&sheet, 247, 0), COLOR_0);
    assert_eq!(pixel(&sheet, 248, 0), BLACK);
    assert_eq!(pixel(&sheet, 250, 0), BLACK);
    assert_eq!(pixel(&sheet, 0, 10), COLOR_0);
    // Tile 255 is the sixth of the eleventh row.
    assert_eq!(pixel(&sheet, 57, 107), COLOR_0);
    assert_eq!(pixel(&sheet, 60, 100), BLACK);
    assert_eq!(pixel(&sheet, 0, 110), BLACK);
    assert_eq!(pixel(&sheet, 511, 239), BLACK);
}

#[test]
fn the_number_of_drawn_pixels_is_that_of_256_tiles() {
    let sheet = tile_bank(&vec![0xffu8; 0x1000], Bank::Left).unwrap();
    let drawn = (0..WIDTH * HEIGHT).filter(|p| pixel(&sheet, p % WIDTH, p / WIDTH) == COLOR_3).count();
    assert_eq!(drawn, 256 * 64);
    let black = (0..WIDTH * HEIGHT).filter(|p| pixel(&sheet, p % WIDTH, p / WIDTH) == BLACK).count();
    assert_eq!(black, WIDTH * HEIGHT - 256 * 64);
}

#[test]
fn bit_planes_give_the_pixel_values() {
    let mut rom = vec![0u8; 0x1000];
    // Tile 0, row 0: low plane 1010_0101, high plane 1100_0011.
    rom[0] = 0b1010_0101;
    rom[8] = 0b1100_0011;
    // Tile 0, row 7: the leftmost pixel of the low plane only.
    rom[7] = 0b1000_0000;
    let sheet = tile_bank(&rom, Bank::Left).unwrap();
    let row: Vec<(u8, u8, u8)> = (0..8).map(|x| pixel(&sheet, x, 0)).collect();
    assert_eq!(
        row,
        vec![COLOR_3, COLOR_2, COLOR_1, COLOR_0, COLOR_0, COLOR_1, COLOR_2, COLOR_3]
    );
    assert_eq!(pixel(&sheet, 0, 7), COLOR_1);
    assert_eq!(pixel(&sheet, 1, 7), COLOR_0);
    assert_eq!(pixel(&sheet, 0, 1), COLOR_0);
}

#[test]
fn tiles_are_placed_on_a_grid_of_ten_pixels() {
    let mut rom = vec![0u8; 0x1000];
    // Tile 1, row 2: all pixels of value 3.
    rom[16 + 2] = 0xff;
    rom[16 + 2 + 8] = 0xff;
    // Tile 26, row 0: the rightmost pixel of value 2.
    rom[16 * 26 + 8] = 0x01;
    // Tile 255, row 7: the leftmost pixel of value 1.
    rom[16 * 255 + 7] = 0x80;
    let sheet = tile_bank(&rom, Bank::Left).unwrap();
    for x in 10..18 {
        assert_eq!(pixel(&sheet, x, 2), COLOR_3);
        assert_eq!(pixel(&sheet, x, 1), COLOR_0);
        assert_eq!(pixel(&sheet, x, 3), COLOR_0);
    }
    assert_eq!(pixel(&sheet, 18, 2), BLACK);
    assert_eq!(pixel(&sheet, 17, 10), COLOR_2);
    assert_eq!(pixel(&sheet, 16, 10), COLOR_0);
    assert_eq!(pixel(&sheet, 50, 107), COLOR_1);
    assert_eq!(pixel(&sheet, 51, 107), COLOR_0);
}

#[test]
fn the_right_bank_starts_at_0x1000() {
    let mut rom = vec![0u8; 0x2000];
    rom[0] = 0xff;
    rom[0x1000] = 0x80;
    rom[0x1008] = 0x80;
    let left = tile_bank(&rom, Bank::Left).unwrap();
    let right = tile_bank(&rom, Bank::Right).unwrap();
    assert_eq!(pixel(&left, 0, 0), COLOR_1);
    assert_eq!(pixel(&left, 1, 0), COLOR_1);
    assert_eq!(pixel(&right, 0, 0), COLOR_3);
    assert_eq!(pixel(&right, 1, 0), COLOR_0);
    assert_eq!(Bank::Left.start(), 0);
    assert_eq!(Bank::Right.start(), 0x1000);
}
