use gb_core::cart::Cartridge;
use gb_core::gb::Gb;
use gb_core::mmu::Mmu;
use gb_core::ppu::Ppu;

fn rom() -> Vec<u8> {
    let mut image = vec![0u8; 0x8000];
    image[0x014D] = 231;
    // An endless loop at the entry point.
    image[0x0100] = 0x18;
    image[0x0101] = 0xFE;
    image
}

fn bus() -> Mmu {
    Mmu::new(None, Cartridge::new(rom()).ok().unwrap())
}

/// Runs the pixel unit to the start of the next vertical blank.
fn to_vblank(m: &mut Mmu) {
    m.wb(0xFF0F, 0x00);
    let mut guard = 0;
    while m.b(0xFF0F) & 0x01 == 0 {
        m.step(4);
        guard += 1;
        assert!(guard < 40000);
    }
}

/// Writes the eight rows of a tile, each row as the eight palette indices of its pixels.
fn write_tile(m: &mut Mmu, address: u16, rows: [[u8; 8]; 8]) {
    for (y, row) in rows.iter().enumerate() {
        let mut low = 0u8;
        let mut high = 0u8;
        for (x, index) in row.iter().enumerate() {
            low |= (index & 1) << (7 - x);
            high |= ((index >> 1) & 1) << (7 - x);
        }
        m.wb(address + (y as u16) * 2, low);
        m.wb(address + (y as u16) * 2 + 1, high);
    }
}

fn solid(index: u8) -> [[u8; 8]; 8] {
    [[index; 8]; 8]
}

#[test]
fn frame_shape_and_colours_after_vblank() {
    let mut gb = Gb::new(Cartridge::new(rom()).ok().unwrap(), None);
    let mut carry = 0;
    for _ in 0..3 {
        carry = gb.step_frame(carry);
        let buf = gb.get_buf();
        assert_eq!(buf.len(), 144);
        for line in buf.iter() {
            assert_eq!(line.len(), 160);
            for pixel in line.iter() {
                assert!(*pixel <= 3);
            }
        }
    }
}

#[test]
fn scanline_modes_and_ly() {
    let mut m = bus();
    to_vblank(&mut m);
    assert_eq!(m.b(0xFF44), 144);
    assert_eq!(m.b(0xFF41) & 0x03, 1);
    // Ten lines of vertical blank, then line 0.
    m.step(456 * 10);
    assert_eq!(m.b(0xFF44), 0);
    m.step(4);
    assert_eq!(m.b(0xFF41) & 0x03, 2);
    m.step(76);
    assert_eq!(m.b(0xFF41) & 0x03, 2);
    m.step(4);
    assert_eq!(m.b(0xFF41) & 0x03, 3);
    m.step(84);
    assert_eq!(m.b(0xFF41) & 0x03, 3);
    m.step(4);
    assert_eq!(m.b(0xFF41) & 0x03, 0);
    m.step(456 - 172);
    assert_eq!(m.b(0xFF44), 1);
    // A whole frame later the same line again.
    m.step(70224);
    assert_eq!(m.b(0xFF44), 1);
}

#[test]
fn vblank_and_stat_interrupts() {
    let mut m = bus();
    to_vblank(&mut m);
    m.wb(0xFF0F, 0x00);
    // LY = LYC interrupt at line 5.
    m.wb(0xFF45, 5);
    m.wb(0xFF41, 0x40);
    m.step(456 * 10 + 456 * 4);
    assert_eq!(m.b(0xFF0F) & 0x03, 0x00);
    assert_eq!(m.b(0xFF41) & 0x04, 0x00);
    m.step(456);
    assert_eq!(m.b(0xFF44), 5);
    assert_eq!(m.b(0xFF0F) & 0x03, 0x02);
    assert_eq!(m.b(0xFF41) & 0x04, 0x04);
    m.wb(0xFF0F, 0x00);
    // Horizontal blank interrupt.
    m.wb(0xFF41, 0x08);
    m.step(456);
    assert_eq!(m.b(0xFF0F) & 0x02, 0x02);
    m.wb(0xFF0F, 0x00);
    m.wb(0xFF41, 0x00);
    m.step(456 * 137);
    assert_eq!(m.b(0xFF0F) & 0x03, 0x00);
    m.step(456);
    assert_eq!(m.b(0xFF44), 144);
    assert_eq!(m.b(0xFF0F) & 0x03, 0x01);
}

#[test]
fn stat_keeps_its_low_bits_and_ly_cannot_be_written() {
    let mut m = bus();
    to_vblank(&mut m);
    m.wb(0xFF45, 0);
    let low = m.b(0xFF41) & 0x07;
    m.wb(0xFF41, 0xFF);
    assert_eq!(m.b(0xFF41), 0x78 | low);
    m.wb(0xFF41, 0x00);
    assert_eq!(m.b(0xFF41), low);
    m.wb(0xFF44, 77);
    assert_eq!(m.b(0xFF44), 144);
}

#[test]
fn background_tiles_palette_and_scroll() {
    let mut m = bus();
    let mut tile = solid(0);
    for y in 0..8 {
        for x in 0..8 {
            tile[y][x] = ((x + y) % 4) as u8;
        }
    }
    write_tile(&mut m, 0x8010, tile);
    write_tile(&mut m, 0x8020, solid(3));
    // Tile 1 at the top left of the map, tile 2 right of it, tile 0 elsewhere.
    m.wb(0x9800, 1);
    m.wb(0x9801, 2);
    // Palette: index 0 -> 0, 1 -> 3, 2 -> 1, 3 -> 2.
    m.wb(0xFF47, 0b10_01_11_00);
    m.wb(0xFF40, 0x91);
    to_vblank(&mut m);
    let shade = [0u8, 3, 1, 2];
    let buf = m.frame();
    for y in 0..8 {
        for x in 0..8 {
            assert_eq!(buf[y][x], shade[(x + y) % 4], "at {}, {}", x, y);
        }
        for x in 8..16 {
            assert_eq!(buf[y][x], 2);
        }
        assert_eq!(buf[y][16], 0);
    }
    assert_eq!(buf[8][0], 0);
    assert_eq!(buf[143][159], 0);

    // Scrolled by three to the right and two down, the map wraps around.
    m.wb(0xFF43, 3);
    m.wb(0xFF42, 2);
    to_vblank(&mut m);
    let buf = m.frame();
    for y in 0..6 {
        for x in 0..5 {
            assert_eq!(buf[y][x], shade[(x + 3 + y + 2) % 4]);
        }
    }
    assert_eq!(buf[0][5], 2);
    assert_eq!(buf[6][0], 0);
    m.wb(0xFF43, 251);
    m.wb(0xFF42, 248);
    to_vblank(&mut m);
    let buf = m.frame();
    assert_eq!(buf[8][5], shade[0]);
    assert_eq!(buf[8][6], shade[1]);
    assert_eq!(buf[9][5], shade[1]);
    assert_eq!(buf[7][5], 0);
}

#[test]
fn background_with_signed_tile_numbers_and_the_second_map() {
    let mut m = bus();
    write_tile(&mut m, 0x9000, solid(1));
    write_tile(&mut m, 0x8800, solid(2));
    write_tile(&mut m, 0x8000, solid(3));
    m.wb(0xFF47, 0b11_10_01_00);
    // Second map, tile numbers signed around 0x9000.
    m.wb(0x9C00, 0x00);
    m.wb(0x9C01, 0x80);
    m.wb(0xFF40, 0x89);
    to_vblank(&mut m);
    let buf = m.frame();
    assert_eq!(buf[0][0], 1);
    assert_eq!(buf[0][8], 2);
    // With unsigned tile numbers tile 0 lies at 0x8000.
    m.wb(0xFF40, 0x99);
    to_vblank(&mut m);
    let buf = m.frame();
    assert_eq!(buf[0][0], 3);
    assert_eq!(buf[0][8], 2);
    // With the background off the lines are blank.
    m.wb(0xFF40, 0x98);
    to_vblank(&mut m);
    assert_eq!(m.frame()[0][0], 0);
}

#[test]
fn window_over_the_background() {
    let mut m = bus();
    write_tile(&mut m, 0x8010, solid(1));
    write_tile(&mut m, 0x8020, solid(2));
    m.wb(0xFF47, 0b11_10_01_00);
    // The background shows tile 0, the window map at 0x9C00 tile 1 in its
    // first row and tile 2 in its second.
    for i in 0..32u16 {
        m.wb(0x9C00 + i, 1);
        m.wb(0x9C20 + i, 2);
    }
    m.wb(0xFF4A, 10);
    m.wb(0xFF4B, 7 + 20);
    m.wb(0xFF40, 0x91 | 0x20 | 0x40);
    to_vblank(&mut m);
    to_vblank(&mut m);
    let buf = m.frame();
    assert_eq!(buf[9][20], 0);
    assert_eq!(buf[10][19], 0);
    assert_eq!(buf[10][20], 1);
    assert_eq!(buf[10][159], 1);
    assert_eq!(buf[17][20], 1);
    assert_eq!(buf[18][20], 2);
    assert_eq!(buf[25][100], 2);
    assert_eq!(buf[26][100], 0);
    // A window past the right edge does not show.
    m.wb(0xFF4B, 167);
    to_vblank(&mut m);
    assert_eq!(m.frame()[10][159], 0);
}

fn sprite(m: &mut Mmu, number: u16, y: u8, x: u8, tile: u8, attributes: u8) {
    m.wb(0xFE00 + number * 4, y);
    m.wb(0xFE00 + number * 4 + 1, x);
    m.wb(0xFE00 + number * 4 + 2, tile);
    m.wb(0xFE00 + number * 4 + 3, attributes);
}

#[test]
fn sprites_position_palettes_flips_and_transparency() {
    let mut m = bus();
    let mut tile = solid(0);
    tile[0] = [1, 2, 3, 0, 0, 0, 0, 0];
    tile[7] = [3, 3, 0, 0, 0, 0, 0, 1];
    write_tile(&mut m, 0x8010, tile);
    m.wb(0xFF47, 0b00_00_00_00);
    m.wb(0xFF48, 0b11_10_01_00);
    m.wb(0xFF49, 0b01_10_11_00);
    sprite(&mut m, 0, 16 + 20, 8 + 30, 1, 0x00);
    sprite(&mut m, 1, 16 + 40, 8 + 30, 1, 0x10);
    sprite(&mut m, 2, 16 + 60, 8 + 30, 1, 0x20);
    sprite(&mut m, 3, 16 + 80, 8 + 30, 1, 0x40);
    m.wb(0xFF40, 0x93);
    to_vblank(&mut m);
    let buf = m.frame();
    assert_eq!(&buf[20][30..38], &[1, 2, 3, 0, 0, 0, 0, 0]);
    assert_eq!(&buf[27][30..38], &[3, 3, 0, 0, 0, 0, 0, 1]);
    assert_eq!(buf[28][30], 0);
    assert_eq!(buf[19][30], 0);
    // The second palette.
    assert_eq!(&buf[40][30..38], &[3, 2, 1, 0, 0, 0, 0, 0]);
    // Flipped left to right.
    assert_eq!(&buf[60][30..38], &[0, 0, 0, 0, 0, 3, 2, 1]);
    // Flipped top to bottom.
    assert_eq!(&buf[80][30..38], &[3, 3, 0, 0, 0, 0, 0, 1]);
    assert_eq!(&buf[87][30..38], &[1, 2, 3, 0, 0, 0, 0, 0]);
    // With sprites off nothing shows.
    m.wb(0xFF40, 0x91);
    to_vblank(&mut m);
    assert_eq!(m.frame()[20][30], 0);
}

#[test]
fn sprites_at_the_edges_and_tall_sprites() {
    let mut m = bus();
    write_tile(&mut m, 0x8020, solid(1));
    write_tile(&mut m, 0x8030, solid(2));
    m.wb(0xFF48, 0b11_10_01_00);
    // Half off the left edge, half off the top, and off the screen.
    sprite(&mut m, 0, 16 + 50, 4, 2, 0x00);
    sprite(&mut m, 1, 12, 8 + 50, 2, 0x00);
    sprite(&mut m, 2, 16 + 50, 0, 2, 0x00);
    sprite(&mut m, 3, 16 + 50, 168, 2, 0x00);
    sprite(&mut m, 4, 16 + 50, 8 + 156, 2, 0x00);
    m.wb(0xFF40, 0x93);
    to_vblank(&mut m);
    let buf = m.frame();
    assert_eq!(&buf[50][0..5], &[1, 1, 1, 1, 0]);
    assert_eq!(buf[0][50], 1);
    assert_eq!(buf[3][57], 1);
    assert_eq!(buf[4][50], 0);
    assert_eq!(&buf[50][155..160], &[0, 1, 1, 1, 1]);
    // Tall sprites use an even tile and the one after it.
    sprite(&mut m, 5, 16 + 100, 8 + 100, 3, 0x00);
    m.wb(0xFF40, 0x97);
    to_vblank(&mut m);
    let buf = m.frame();
    assert_eq!(buf[100][100], 1);
    assert_eq!(buf[107][100], 1);
    assert_eq!(buf[108][100], 2);
    assert_eq!(buf[115][100], 2);
    assert_eq!(buf[116][100], 0);
}

#[test]
fn sprite_order_and_background_priority() {
    let mut m = bus();
    write_tile(&mut m, 0x8010, solid(1));
    write_tile(&mut m, 0x8020, solid(2));
    write_tile(&mut m, 0x8030, solid(3));
    m.wb(0xFF47, 0b11_10_01_00);
    m.wb(0xFF48, 0b11_10_01_00);
    // Two sprites that overlap by four columns: the one with the larger X
    // is drawn later and shows where they overlap.
    sprite(&mut m, 0, 16 + 20, 8 + 44, 2, 0x00);
    sprite(&mut m, 1, 16 + 20, 8 + 40, 1, 0x00);
    // With equal X the one later in the sprite memory is drawn later.
    sprite(&mut m, 2, 16 + 40, 8 + 40, 1, 0x00);
    sprite(&mut m, 3, 16 + 40, 8 + 40, 2, 0x00);
    // A sprite behind the background shows where the background has index 0.
    sprite(&mut m, 4, 16 + 60, 8 + 4, 2, 0x80);
    m.wb(0x9800 + (60 / 8) * 32, 3);
    m.wb(0xFF40, 0x93);
    to_vblank(&mut m);
    let buf = m.frame();
    assert_eq!(&buf[20][40..52], &[1, 1, 1, 1, 2, 2, 2, 2, 2, 2, 2, 2]);
    assert_eq!(&buf[40][40..48], &[2; 8]);
    assert_eq!(&buf[60][4..12], &[3, 3, 3, 3, 2, 2, 2, 2]);
}

#[test]
fn at_most_ten_sprites_on_a_line() {
    let mut m = bus();
    write_tile(&mut m, 0x8010, solid(1));
    m.wb(0xFF48, 0b11_10_01_00);
    for i in 0..12u16 {
        sprite(&mut m, i, 16 + 30, 8 + (i as u8) * 10, 1, 0x00);
    }
    m.wb(0xFF40, 0x93);
    to_vblank(&mut m);
    let buf = m.frame();
    for i in 0..10usize {
        assert_eq!(buf[30][i * 10], 1);
    }
    assert_eq!(buf[30][100], 0);
    assert_eq!(buf[30][110], 0);
}

#[test]
fn switching_the_display_off_blanks_the_rest_of_the_frame() {
    let mut m = bus();
    write_tile(&mut m, 0x8000, solid(3));
    m.wb(0xFF47, 0b11_10_01_00);
    m.wb(0xFF40, 0x91);
    to_vblank(&mut m);
    assert_eq!(m.frame()[100][0], 3);
    m.step(456 * 10 + 456 * 50 + 100);
    assert_eq!(m.b(0xFF44), 50);
    // The unit is in the middle of a visible line.
    assert_eq!(m.b(0xFF41) & 0x03, 0x03);
    m.wb(0xFF40, 0x11);
    assert_eq!(m.b(0xFF44), 0);
    assert_eq!(m.b(0xFF41) & 0x03, 0x01);
    // With the display off nothing moves.
    m.step(456 * 20);
    assert_eq!(m.b(0xFF44), 0);
    // Switched on again, the lines of this frame come out blank.
    m.wb(0xFF40, 0x91);
    m.step(456 * 10);
    assert_eq!(m.b(0xFF44), 10);
    assert_eq!(m.frame()[5][0], 0);
    assert_eq!(m.frame()[100][0], 3);
    to_vblank(&mut m);
    to_vblank(&mut m);
    assert_eq!(m.frame()[5][0], 3);
}

#[test]
fn pixel_unit_alone() {
    let mut p = Ppu::new();
    assert_eq!(p.b(0xFF40), 0x91);
    assert_eq!(p.b(0xFF44), 0x91);
    assert_eq!(p.b(0xFF68), 0xC8);
    assert_eq!(p.b(0xFF69), 0xFF);
    assert_eq!(p.b(0xFF6A), 0xD0);
    assert_eq!(p.b(0xFF6B), 0xFF);
    assert!(!p.wb(0x8000, 0x12));
    assert_eq!(p.b(0x8000), 0x12);
    // A write to LYC that makes LY equal LYC asks for the interrupt where STAT enables it.
    assert!(!p.wb(0xFF45, 0x91));
    assert_eq!(p.b(0xFF41) & 0x04, 0x04);
    assert!(!p.wb(0xFF45, 0x00));
    p.wb(0xFF41, 0x40);
    assert!(p.wb(0xFF45, 0x91));
    // Nine lines more of the vertical blank, then line 0.
    assert_eq!(p.step(456 * 8), (false, false));
    assert_eq!(p.b(0xFF44), 153);
    p.step(456);
    assert_eq!(p.b(0xFF44), 0);
    p.reset();
    assert_eq!(p.b(0x8000), 0x00);
    assert_eq!(p.b(0xFF44), 0x91);
}
