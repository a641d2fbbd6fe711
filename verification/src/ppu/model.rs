//! The pixel unit as plain values, and what each of its operations computes.

use vstd::prelude::*;

verus! {

/// One frame in T-cycles.
pub const ONE_FRAME_CYCLES: u32 = 70224;

/// Pixels in a line.
pub const LCD_WIDTH: usize = 160;

/// Lines in a frame.
pub const LCD_HEIGHT: usize = 144;

/// The display control register.
pub const LCDC: u16 = 0xFF40;

/// The display status register.
pub const STAT: u16 = 0xFF41;

/// The vertical scroll of the background.
pub const SCY: u16 = 0xFF42;

/// The horizontal scroll of the background.
pub const SCX: u16 = 0xFF43;

/// The line being drawn.
pub const LY: u16 = 0xFF44;

/// The line to compare LY with.
pub const LYC: u16 = 0xFF45;

/// The palette of the background and window.
pub const BGP: u16 = 0xFF47;

/// The first sprite palette.
pub const OBP0: u16 = 0xFF48;

/// The second sprite palette.
pub const OBP1: u16 = 0xFF49;

/// The line on which the window begins.
pub const WY: u16 = 0xFF4A;

/// The column at which the window begins, plus 7.
pub const WX: u16 = 0xFF4B;

/// A register without a known function.
pub const UNKNOWN_1: u16 = 0xFF4E;

/// The video RAM bank register of the colour model.
pub const VBK: u16 = 0xFF4F;

/// A palette register of the colour model.
pub const BCPS: u16 = 0xFF68;

/// A palette register of the colour model.
pub const BCPD: u16 = 0xFF69;

/// A palette register of the colour model.
pub const OCPS: u16 = 0xFF6A;

/// A palette register of the colour model.
pub const OCPD: u16 = 0xFF6B;

/// The first address of video RAM.
pub const VRAM_BEGIN: u16 = 0x8000;

/// The first address of sprite memory.
pub const OAM_BEGIN: u16 = 0xFE00;

/// The size of video RAM.
pub const PPU_BANK_SIZE: usize = 0x2000;

/// The size of sprite memory.
pub const PPU_OAM_SIZE: usize = 0xA0;

/// T-cycles in one scanline.
pub const LINE_CYCLES: u32 = 456;

/// Scanlines in one frame, the ten of the vertical blank included.
pub const FRAME_LINES: u8 = 154;

/// The number of sprites that one line can show.
pub const MAX_SPRITES_PER_LINE: usize = 10;

// Bits of LCDC.
/// The background and window are drawn.
pub const BG_WINDOW_ENABLE: u8 = 0b0000_0001;

/// Sprites are drawn.
pub const OBJ_ENABLE: u8 = 0b0000_0010;

/// Sprites are 16 lines high, not 8.
pub const OBJ_SIZE: u8 = 0b0000_0100;

/// The background map is the one at 0x9C00.
pub const BG_TILE_MAP_AREA: u8 = 0b0000_1000;

/// Tile numbers are unsigned and count from 0x8000.
pub const BG_WINDOW_TILE_DATA_AREA: u8 = 0b0001_0000;

/// The window is drawn.
pub const WINDOW_ENABLE: u8 = 0b0010_0000;

/// The window map is the one at 0x9C00.
pub const WINDOW_TILE_AREA: u8 = 0b0100_0000;

/// The display is on.
pub const LCD_ENABLE: u8 = 0b1000_0000;

// Bits of STAT.
/// The two bits that show the mode.
pub const MODE_FLAG: u8 = 0b0000_0011;

/// LY equals LYC.
pub const LYC_EQ_LY: u8 = 0b0000_0100;

/// Entering the horizontal blank asks for the interrupt.
pub const MODE0_HBLANK_INT: u8 = 0b0000_1000;

/// Entering the vertical blank asks for the interrupt.
pub const MODE1_VBLANK_INT: u8 = 0b0001_0000;

/// Entering the sprite scan asks for the interrupt.
pub const MODE2_OAM_INT: u8 = 0b0010_0000;

/// LY becoming equal to LYC asks for the interrupt.
pub const LYC_EQ_LY_INT: u8 = 0b0100_0000;

// Bits of a sprite's attribute byte.
/// The sprite uses the second palette.
pub const PALETTE_NUMBER: u8 = 0b0001_0000;

/// The sprite is flipped left to right.
pub const X_FLIP: u8 = 0b0010_0000;

/// The sprite is flipped top to bottom.
pub const Y_FLIP: u8 = 0b0100_0000;

/// The sprite shows only where the background has palette index 0.
pub const BG_AND_WINDOW_OVER_OBJ: u8 = 0b1000_0000;

/// The four phases of the pixel unit, numbered as STAT shows them.
#[derive(Clone, Copy, Debug, PartialEq, Eq, Structural)]
pub enum Mode {
    HBlank,
    VBlank,
    InOAM,
    TransferData,
}

/// The number that the low two bits of STAT show for a mode.
pub open spec fn mode_bits(mode: Mode) -> u8 {
    match mode {
        Mode::HBlank => 0b00,
        Mode::VBlank => 0b01,
        Mode::InOAM => 0b10,
        Mode::TransferData => 0b11,
    }
}

/// The mode that the low two bits of a STAT value show.
pub open spec fn mode_of_bits(stat: u8) -> Mode {
    if stat & 0b11 == 0b00 {
        Mode::HBlank
    } else if stat & 0b11 == 0b01 {
        Mode::VBlank
    } else if stat & 0b11 == 0b10 {
        Mode::InOAM
    } else {
        Mode::TransferData
    }
}

/// Whether any bit of `flag` is set in `data`.
pub open spec fn has_bit(data: u8, flag: u8) -> bool {
    data & flag != 0
}

/// `data` with the bits of `flag` set or cleared.
pub open spec fn with_bit(data: u8, flag: u8, on: bool) -> u8 {
    if on {
        data | flag
    } else {
        data & !flag
    }
}

/// The sum modulo 2^8.
pub open spec fn wrap8(v: int) -> u8 {
    (v % 256) as u8
}

/// The palette index of column `column` (0 is the leftmost) of a tile row of
/// two bytes: bit 1 from the second byte, bit 0 from the first.
pub open spec fn palette_index_of(low: u8, high: u8, column: u8) -> u8
    recommends
        column < 8,
{
    ((if high & (0x80u8 >> column) != 0 {
        2int
    } else {
        0int
    }) + (if low & (0x80u8 >> column) != 0 {
        1int
    } else {
        0int
    })) as u8
}

/// The colour that a palette register gives to a palette index.
pub open spec fn color_of(palette: u8, index: u8) -> u8
    recommends
        index < 4,
{
    (palette >> ((2 * index) as u8)) & 0b11
}

/// One sprite as the line renderer sees it.
#[derive(Clone, Copy, Debug)]
pub struct Sprite {
    /// The top line of the sprite on the screen, modulo 256.
    pub y: u8,
    /// The leftmost column of the sprite on the screen, modulo 256.
    pub x: u8,
    /// The X byte as it stands in OAM, by which sprites are ordered.
    pub raw_x: u8,
    pub tile_index: u8,
    pub attributes: u8,
}

/// The sprite of OAM entry `number`.
pub open spec fn sprite_at(oam: Seq<u8>, number: int) -> Sprite
    recommends
        0 <= number < 40,
        oam.len() == 0xA0,
{
    Sprite {
        y: wrap8(oam[4 * number] - 16),
        x: wrap8(oam[4 * number + 1] - 8),
        raw_x: oam[4 * number + 1],
        tile_index: oam[4 * number + 2],
        attributes: oam[4 * number + 3],
    }
}

/// Whether the lines of a sprite of the given height include line `ly`. The
/// second case is that of a sprite that begins above the screen.
pub open spec fn covers_line(s: Sprite, height: u8, ly: u8) -> bool {
    (s.y <= ly && ly < wrap8(s.y + height)) || (s.y > 240 && wrap8(s.y + height) < 144 && ly
        < wrap8(s.y + height))
}

/// The sprites to draw on line `ly` among the first `n` entries of OAM: those
/// that cover the line, in OAM order, and no more than ten.
pub open spec fn selected_sprites(oam: Seq<u8>, height: u8, ly: u8, n: int) -> Seq<Sprite>
    decreases n,
{
    if n <= 0 {
        Seq::empty()
    } else {
        let before = selected_sprites(oam, height, ly, n - 1);
        if before.len() < 10 && covers_line(sprite_at(oam, n - 1), height, ly) {
            before.push(sprite_at(oam, n - 1))
        } else {
            before
        }
    }
}

/// Whether the sprite at place `i` of the selection is drawn before the one
/// at place `j`: smaller X first, and for equal X the one earlier in OAM.
pub open spec fn drawn_before(sprites: Seq<Sprite>, i: int, j: int) -> bool {
    sprites[i].raw_x < sprites[j].raw_x || (sprites[i].raw_x == sprites[j].raw_x && i < j)
}

/// The registers and memory that decide the background and window of a line.
pub struct BgInput {
    pub ram: Seq<u8>,
    pub lcdc: u8,
    pub scy: u8,
    pub scx: u8,
    pub ly: u8,
    pub bgp: u8,
    pub wx: u8,
    /// The line of the window to show, where the window is on this line.
    pub window_y: Option<u8>,
}

/// The registers and memories that decide the sprites of a line.
pub struct SpriteInput {
    pub ram: Seq<u8>,
    pub oam: Seq<u8>,
    pub lcdc: u8,
    pub ly: u8,
    pub obp0: u8,
    pub obp1: u8,
}

impl BgInput {
    /// Whether column `x` shows the window.
    pub open spec fn window_visible(self, x: int) -> bool {
        self.window_y is Some && x - (self.wx - 7) >= 0
    }

    /// The place of column `x` in the plane of 256 by 256 pixels: in the
    /// window counted from its corner, in the background scrolled by SCX and SCY.
    pub open spec fn plane_x(self, x: int) -> int {
        if self.window_visible(x) {
            x - (self.wx - 7)
        } else {
            (x + self.scx) % 256
        }
    }

    /// The line of the plane that column `x` shows.
    pub open spec fn plane_y(self, x: int) -> int {
        if self.window_visible(x) {
            self.window_y->Some_0 as int
        } else {
            (self.ly + self.scy) % 256
        }
    }

    /// The start of the tile map for the window or for the background, as LCDC selects it.
    pub open spec fn map_base(self, window: bool) -> int {
        if window {
            if has_bit(self.lcdc, WINDOW_TILE_AREA) {
                0x9C00
            } else {
                0x9800
            }
        } else if has_bit(self.lcdc, BG_TILE_MAP_AREA) {
            0x9C00
        } else {
            0x9800
        }
    }

    /// The tile number at column `x`, from the tile map.
    pub open spec fn tile_index(self, x: int) -> u8 {
        self.ram[self.map_base(self.window_visible(x)) + self.plane_x(x) / 8 + (self.plane_y(x)
            / 8) * 32 - 0x8000]
    }

    /// The address of the tile's data: counted from 0x8000 with an unsigned
    /// tile number, or around 0x9000 with a signed one.
    pub open spec fn tile_address(self, x: int) -> int {
        if has_bit(self.lcdc, BG_WINDOW_TILE_DATA_AREA) {
            0x8000 + self.tile_index(x) * 16
        } else if self.tile_index(x) < 128 {
            0x9000 + self.tile_index(x) * 16
        } else {
            0x9000 + (self.tile_index(x) - 256) * 16
        }
    }

    /// The palette index of the background or window at column `x`.
    pub open spec fn bg_index(self, x: int) -> u8 {
        palette_index_of(
            self.ram[self.tile_address(x) + (self.plane_y(x) % 8) * 2 - 0x8000],
            self.ram[self.tile_address(x) + (self.plane_y(x) % 8) * 2 + 1 - 0x8000],
            (self.plane_x(x) % 8) as u8,
        )
    }

    /// The colour of the background or window at column `x`.
    pub open spec fn bg_color(self, x: int) -> u8 {
        color_of(self.bgp, self.bg_index(x))
    }

}

impl SpriteInput {
    /// The height of all sprites, as LCDC selects it.
    pub open spec fn sprite_height(self) -> u8 {
        if has_bit(self.lcdc, OBJ_SIZE) {
            16
        } else {
            8
        }
    }

    /// The sprites to draw on this line.
    pub open spec fn sprites(self) -> Seq<Sprite> {
        selected_sprites(self.oam, self.sprite_height(), self.ly, 40)
    }

    /// Whether any part of the sprite can be on the screen.
    pub open spec fn on_screen(self, s: Sprite) -> bool {
        s.x < 160 || wrap8(s.x + 7) < 160
    }

    /// The row of its tile that the sprite shows on this line, top row 0;
    /// counted from the bottom where the sprite is flipped.
    pub open spec fn sprite_row(self, s: Sprite) -> u8 {
        if has_bit(s.attributes, Y_FLIP) {
            wrap8((self.sprite_height() - 1) - wrap8(self.ly - s.y))
        } else {
            wrap8(self.ly - s.y)
        }
    }

    /// The address of the sprite's tile; a tall sprite starts at an even tile.
    pub open spec fn sprite_tile_address(self, s: Sprite) -> int {
        0x8000 + (if has_bit(self.lcdc, OBJ_SIZE) {
            s.tile_index & 0b1111_1110
        } else {
            s.tile_index
        }) * 16
    }

    /// The palette index that the sprite has at screen column `col`, where
    /// the sprite reaches that column.
    pub open spec fn sprite_index(self, s: Sprite, col: int) -> u8 {
        let rel_x: int = (col - s.x) % 256;
        palette_index_of(
            self.sprite_row_bytes(s).0,
            self.sprite_row_bytes(s).1,
            (if has_bit(s.attributes, X_FLIP) {
                7 - rel_x
            } else {
                rel_x
            }) as u8,
        )
    }

    /// Whether the sprite puts a pixel at column `col`: it reaches the
    /// column, is not hidden behind the background there, and is not
    /// transparent there. `behind` holds the palette indices of the
    /// background that hide sprites.
    pub open spec fn paints(self, s: Sprite, behind: Seq<u8>, col: int) -> bool {
        &&& self.on_screen(s)
        &&& (col - s.x) % 256 < 8
        &&& !(behind[col] != 0 && has_bit(s.attributes, BG_AND_WINDOW_OVER_OBJ))
        &&& self.sprite_index(s, col) != 0
    }

    /// The two bytes of the row of its tile that the sprite shows on this line.
    pub open spec fn sprite_row_bytes(self, s: Sprite) -> (u8, u8) {
        (
            self.ram[self.sprite_tile_address(s) + self.sprite_row(s) * 2 - 0x8000],
            self.ram[self.sprite_tile_address(s) + self.sprite_row(s) * 2 + 1 - 0x8000],
        )
    }

    /// The colour of the sprite's pixel at column `col`, from its palette.
    pub open spec fn sprite_color(self, s: Sprite, col: int) -> u8 {
        color_of(
            if has_bit(s.attributes, PALETTE_NUMBER) {
                self.obp1
            } else {
                self.obp0
            },
            self.sprite_index(s, col),
        )
    }

    /// The place in the selection of the sprite seen at column `col`, among
    /// the first `n` selected: of those that put a pixel there, the one drawn last.
    pub open spec fn top_sprite(self, behind: Seq<u8>, col: int, n: int) -> Option<int>
        decreases n,
    {
        if n <= 0 {
            None
        } else {
            let before = self.top_sprite(behind, col, n - 1);
            if self.paints(self.sprites()[n - 1], behind, col) && (before is None || drawn_before(
                self.sprites(),
                before->Some_0,
                n - 1,
            )) {
                Some(n - 1)
            } else {
                before
            }
        }
    }

    /// The line with the sprites over it.
    pub open spec fn with_sprites(self, line: Seq<u8>, behind: Seq<u8>) -> Seq<u8> {
        Seq::new(
            160,
            |col: int|
                match self.top_sprite(behind, col, self.sprites().len() as int) {
                    Some(i) => self.sprite_color(self.sprites()[i], col),
                    None => line[col],
                },
        )
    }
}

/// A line of 160 pixels of colour 0.
pub open spec fn blank_line() -> Seq<u8> {
    Seq::new(160, |i: int| 0u8)
}

/// A frame of 144 blank lines.
pub open spec fn blank_frame() -> Seq<Seq<u8>> {
    Seq::new(144, |i: int| blank_line())
}

/// Whether a frame has 144 lines of 160 pixels, each a colour from 0 to 3.
pub open spec fn frame_valid(buf: Seq<Seq<u8>>) -> bool {
    &&& buf.len() == 144
    &&& forall|r: int| 0 <= r < 144 ==> (#[trigger] buf[r]).len() == 160
    &&& forall|r: int, c: int| 0 <= r < 144 && 0 <= c < 160 ==> #[trigger] buf[r][c] <= 3
}

/// The pixel unit as plain values.
pub struct PpuModel {
    pub ram: Seq<u8>,
    pub oam: Seq<u8>,
    pub lcdc: u8,
    pub stat: u8,
    pub scy: u8,
    pub scx: u8,
    pub ly: u8,
    pub lyc: u8,
    pub dma: u8,
    pub bgp: u8,
    pub obp0: u8,
    pub obp1: u8,
    pub wy: u8,
    pub wx: u8,
    /// The frame: 144 lines of 160 colours.
    pub buf: Seq<Seq<u8>>,
    /// T-cycles into the present line.
    pub internal_cycles: u32,
    pub mode: Mode,
    /// The next line of the window to show, once the window has begun in this frame.
    pub window_counter: Option<u8>,
    /// The palette indices of the background on the line drawn last.
    pub palette_index: Seq<u8>,
    /// The display was switched off in this frame: lines stay blank until the next one.
    pub blank_frame: bool,
    pub enable_background: bool,
    pub enable_obj: bool,
}

/// What one stretch of T-cycles did: the unit afterwards, and the two interrupt requests.
pub struct Stepped {
    pub ppu: PpuModel,
    pub vblank: bool,
    pub lcdstat: bool,
}

/// Whether an address is one that the pixel unit answers.
pub open spec fn ppu_address(address: u16) -> bool {
    ||| 0x8000 <= address <= 0x9FFF
    ||| 0xFE00 <= address <= 0xFE9F
    ||| LCDC <= address <= LYC
    ||| BGP <= address <= WX
    ||| address == UNKNOWN_1
    ||| address == VBK
    ||| BCPS <= address <= OCPD
}

impl PpuModel {
    /// Whether the present line has been drawn already.
    pub open spec fn line_drawn(self) -> bool {
        self.mode == Mode::HBlank && self.internal_cycles > 168
    }

    /// The window has not moved on further than the lines drawn in this
    /// frame, `ahead` more allowed: its counter is at most LY plus `ahead`
    /// on a visible line, and zero in the vertical blank.
    pub open spec fn window_within(self, ahead: int) -> bool {
        self.window_counter matches Some(c) ==> (if self.ly >= 144 {
            c == 0
        } else {
            c <= self.ly + ahead
        })
    }

    /// The memories have their sizes, the frame holds colours only, the
    /// line and cycle counts are within a frame and a line, and the window
    /// has moved on by no more than one line for each line drawn.
    pub open spec fn wf(self) -> bool {
        &&& self.ram.len() == 0x2000
        &&& self.oam.len() == 0xA0
        &&& self.palette_index.len() == 160
        &&& frame_valid(self.buf)
        &&& self.ly < 154
        &&& self.internal_cycles < 456
        &&& self.window_within(
            if self.line_drawn() {
                1
            } else {
                0
            },
        )
    }

    /// The unit after power-on or reset, with the given setting of the two
    /// switches for debugging: memories of zeros, a blank frame, line 145
    /// of the vertical blank.
    pub open spec fn power_on(enable_background: bool, enable_obj: bool) -> PpuModel {
        PpuModel {
            ram: Seq::new(0x2000, |i: int| 0u8),
            oam: Seq::new(0xA0, |i: int| 0u8),
            lcdc: 0x91,
            stat: 0x81,
            scy: 0x00,
            scx: 0x00,
            ly: 0x91,
            lyc: 0x00,
            dma: 0xFF,
            bgp: 0xFC,
            obp0: 0x00,
            obp1: 0x00,
            wy: 0x00,
            wx: 0x00,
            buf: blank_frame(),
            internal_cycles: 0,
            mode: Mode::VBlank,
            window_counter: None,
            palette_index: blank_line(),
            blank_frame: false,
            enable_background,
            enable_obj,
        }
    }

    /// The interrupt that STAT asks for on entering a mode; none for the transfer mode.
    pub open spec fn mode_interrupt(self, mode: Mode) -> bool {
        match mode {
            Mode::HBlank => has_bit(self.stat, MODE0_HBLANK_INT),
            Mode::VBlank => has_bit(self.stat, MODE1_VBLANK_INT),
            Mode::InOAM => has_bit(self.stat, MODE2_OAM_INT),
            Mode::TransferData => false,
        }
    }

    /// The unit after a change of mode: STAT keeps its enable bits and shows the mode.
    pub open spec fn switch_mode(self, mode: Mode) -> PpuModel {
        PpuModel { mode, stat: (self.stat & 0b0111_1000) | mode_bits(mode), ..self }
    }

    /// The unit with the coincidence bit of STAT brought up to date.
    pub open spec fn with_coincidence(self) -> PpuModel {
        PpuModel { stat: with_bit(self.stat, LYC_EQ_LY, self.lyc == self.ly), ..self }
    }

    /// Whether LY equals LYC and STAT asks for an interrupt then.
    pub open spec fn coincidence_interrupt(self) -> bool {
        self.lyc == self.ly && has_bit(self.with_coincidence().stat, LYC_EQ_LY_INT)
    }

    /// The unit with a new line number.
    pub open spec fn with_ly(self, ly: u8) -> PpuModel {
        (PpuModel { ly, ..self }).with_coincidence()
    }

    /// Whether a new line number asks for the coincidence interrupt.
    pub open spec fn ly_interrupt(self, ly: u8) -> bool {
        (PpuModel { ly, ..self }).coincidence_interrupt()
    }

    /// The unit with the window begun, where this is its first line: LY
    /// equals WY, the window is enabled, and it has not begun yet.
    pub open spec fn with_window_begun(self) -> PpuModel {
        if self.ly == self.wy && self.window_counter is None && has_bit(
            self.lcdc,
            WINDOW_ENABLE,
        ) {
            PpuModel { window_counter: Some(0u8), ..self }
        } else {
            self
        }
    }

    /// Whether the line to draw shows the window.
    pub open spec fn window_on_line(self) -> bool {
        has_bit(self.lcdc, WINDOW_ENABLE) && self.wx <= 166 && self.window_counter is Some
    }

    /// What decides the background and window of a line that shows the given line of the window.
    pub open spec fn bg_input_with(self, window_y: Option<u8>) -> BgInput {
        BgInput {
            ram: self.ram,
            lcdc: self.lcdc,
            scy: self.scy,
            scx: self.scx,
            ly: self.ly,
            bgp: self.bgp,
            wx: self.wx,
            window_y,
        }
    }

    /// What decides the background and window of the line to draw.
    pub open spec fn bg_input(self) -> BgInput {
        self.bg_input_with(
            if self.window_on_line() {
                self.window_counter
            } else {
                None
            },
        )
    }

    /// What decides the sprites of the line to draw.
    pub open spec fn sprite_input(self) -> SpriteInput {
        SpriteInput {
            ram: self.ram,
            oam: self.oam,
            lcdc: self.lcdc,
            ly: self.ly,
            obp0: self.obp0,
            obp1: self.obp1,
        }
    }

    /// Whether the background is drawn on the line.
    pub open spec fn draws_background(self) -> bool {
        !self.blank_frame && self.enable_background && has_bit(self.lcdc, BG_WINDOW_ENABLE)
    }

    /// Whether the sprites are drawn on the line.
    pub open spec fn draws_sprites(self) -> bool {
        !self.blank_frame && self.enable_obj && has_bit(self.lcdc, OBJ_ENABLE)
    }

    /// The palette indices of the background after the line was drawn; those
    /// of the line before where the background is not drawn.
    pub open spec fn drawn_indices(self) -> Seq<u8> {
        if self.draws_background() {
            Seq::new(160, |x: int| self.bg_input().bg_index(x))
        } else {
            self.palette_index
        }
    }

    /// The background of the line: blank where it is not drawn.
    pub open spec fn drawn_background(self) -> Seq<u8> {
        if self.draws_background() {
            Seq::new(160, |x: int| self.bg_input().bg_color(x))
        } else {
            blank_line()
        }
    }

    /// The colours of line LY.
    pub open spec fn drawn_line(self) -> Seq<u8> {
        if self.draws_sprites() {
            self.sprite_input().with_sprites(self.drawn_background(), self.drawn_indices())
        } else {
            self.drawn_background()
        }
    }

    /// The unit after line LY was drawn into the frame; a line with the
    /// window on it moves the window on by one line.
    pub open spec fn draw_line(self) -> PpuModel
        recommends
            self.ly < 144,
    {
        PpuModel {
            buf: self.buf.update(self.ly as int, self.drawn_line()),
            palette_index: self.drawn_indices(),
            window_counter: if self.draws_background() && self.window_on_line() {
                Some((self.window_counter->Some_0 + 1) as u8)
            } else {
                self.window_counter
            },
            ..self
        }
    }

    /// The unit at the end of a line: the next line begins, and line 144
    /// begins the vertical blank.
    pub open spec fn next_line(self) -> Stepped {
        let wrapped = PpuModel {
            internal_cycles: (self.internal_cycles - LINE_CYCLES) as u32,
            ..self
        };
        let moved = wrapped.with_ly(((self.ly + 1) % 154) as u8);
        let coincidence = wrapped.ly_interrupt(((self.ly + 1) % 154) as u8);
        if moved.ly == 144 {
            Stepped {
                ppu: PpuModel {
                    window_counter: None,
                    blank_frame: false,
                    ..moved.switch_mode(Mode::VBlank)
                },
                vblank: true,
                lcdstat: coincidence || moved.switch_mode(Mode::VBlank).mode_interrupt(
                    Mode::VBlank,
                ),
            }
        } else {
            Stepped { ppu: moved, vblank: false, lcdstat: coincidence }
        }
    }

    /// The unit within a visible line: the mode follows the cycle count, and
    /// the line is drawn on entering the horizontal blank.
    pub open spec fn within_line(self) -> Stepped {
        if self.internal_cycles <= 80 {
            if self.mode != Mode::InOAM {
                Stepped {
                    ppu: self.switch_mode(Mode::InOAM),
                    vblank: false,
                    lcdstat: self.switch_mode(Mode::InOAM).mode_interrupt(Mode::InOAM),
                }
            } else {
                Stepped { ppu: self, vblank: false, lcdstat: false }
            }
        } else if self.internal_cycles <= 168 {
            if self.mode != Mode::TransferData {
                Stepped {
                    ppu: self.switch_mode(Mode::TransferData).with_window_begun(),
                    vblank: false,
                    lcdstat: false,
                }
            } else {
                Stepped { ppu: self, vblank: false, lcdstat: false }
            }
        } else if self.mode != Mode::HBlank {
            Stepped {
                ppu: self.switch_mode(Mode::HBlank).draw_line(),
                vblank: false,
                lcdstat: self.switch_mode(Mode::HBlank).mode_interrupt(Mode::HBlank),
            }
        } else {
            Stepped { ppu: self, vblank: false, lcdstat: false }
        }
    }

    /// The unit after a stretch of at most 80 T-cycles with the display on.
    pub open spec fn step_chunk(self, chunk: u32) -> Stepped
        recommends
            chunk <= 80,
    {
        let counted = PpuModel { internal_cycles: (self.internal_cycles + chunk) as u32, ..self };
        if counted.internal_cycles >= LINE_CYCLES {
            counted.next_line()
        } else if counted.ly < 144 {
            counted.within_line()
        } else {
            Stepped { ppu: counted, vblank: false, lcdstat: false }
        }
    }

    /// The unit after `cycles` T-cycles with the display on, taken in
    /// stretches of 80 and a last shorter one.
    pub open spec fn step_on(self, cycles: u32) -> Stepped
        decreases cycles,
    {
        if cycles == 0 {
            Stepped { ppu: self, vblank: false, lcdstat: false }
        } else {
            let chunk: u32 = if cycles >= 80 {
                80
            } else {
                cycles
            };
            let first = self.step_chunk(chunk);
            let rest = first.ppu.step_on((cycles - chunk) as u32);
            Stepped {
                ppu: rest.ppu,
                vblank: first.vblank || rest.vblank,
                lcdstat: first.lcdstat || rest.lcdstat,
            }
        }
    }

    /// The unit after `cycles` T-cycles; with the display off nothing moves.
    pub open spec fn step(self, cycles: u32) -> Stepped {
        if has_bit(self.lcdc, LCD_ENABLE) {
            self.step_on(cycles)
        } else {
            Stepped { ppu: self, vblank: false, lcdstat: false }
        }
    }

    /// The value that a read gives.
    pub open spec fn read(self, address: u16) -> u8
        recommends
            ppu_address(address),
    {
        if 0x8000 <= address <= 0x9FFF {
            self.ram[address - 0x8000]
        } else if 0xFE00 <= address <= 0xFE9F {
            self.oam[address - 0xFE00]
        } else if address == LCDC {
            self.lcdc
        } else if address == STAT {
            self.stat
        } else if address == SCY {
            self.scy
        } else if address == SCX {
            self.scx
        } else if address == LY {
            self.ly
        } else if address == LYC {
            self.lyc
        } else if address == BGP {
            self.bgp
        } else if address == OBP0 {
            self.obp0
        } else if address == OBP1 {
            self.obp1
        } else if address == WY {
            self.wy
        } else if address == WX {
            self.wx
        } else if address == UNKNOWN_1 {
            0xFF
        } else if address == VBK {
            0xFE
        } else if address == BCPS {
            0xC8
        } else if address == BCPD {
            0xFF
        } else if address == OCPS {
            0xD0
        } else {
            0xFF
        }
    }

    /// Whether a write to LCDC switches the display off.
    pub open spec fn switches_off(self, value: u8) -> bool {
        has_bit(self.lcdc, LCD_ENABLE) && !has_bit(value, LCD_ENABLE)
    }

    /// The unit with the display switched off, before LY is set to 0: the
    /// unit enters the vertical blank, and STAT shows it.
    pub open spec fn switched_off(self, value: u8) -> PpuModel {
        (PpuModel {
            lcdc: value,
            internal_cycles: 0,
            blank_frame: true,
            window_counter: None,
            ..self
        }).switch_mode(Mode::VBlank)
    }

    /// The unit after a write to LCDC: switching the display off puts the
    /// unit at the start of line 0 in the vertical blank, which STAT then
    /// shows as its mode, ends the window, and keeps the rest of the frame
    /// blank.
    pub open spec fn write_lcdc(self, value: u8) -> PpuModel {
        if self.switches_off(value) {
            self.switched_off(value).with_ly(0)
        } else {
            PpuModel { lcdc: value, ..self }
        }
    }

    /// The unit with bits 3 to 6 of STAT as written and the mode as the unit says.
    pub open spec fn with_stat(self, value: u8) -> PpuModel {
        PpuModel { stat: (value & 0b0111_1000) | mode_bits(self.mode), ..self }
    }

    /// The unit after a write to STAT: bits 3 to 6 are taken, the mode and
    /// the coincidence bit stay what the unit says.
    pub open spec fn write_stat(self, value: u8) -> PpuModel {
        self.with_stat(value).with_coincidence()
    }

    /// The unit after a write. A write to LY or to one of the registers of
    /// the colour model changes nothing.
    pub open spec fn write(self, address: u16, value: u8) -> PpuModel
        recommends
            ppu_address(address),
    {
        if 0x8000 <= address <= 0x9FFF {
            PpuModel { ram: self.ram.update(address - 0x8000, value), ..self }
        } else if 0xFE00 <= address <= 0xFE9F {
            PpuModel { oam: self.oam.update(address - 0xFE00, value), ..self }
        } else if address == LCDC {
            self.write_lcdc(value)
        } else if address == STAT {
            self.write_stat(value)
        } else if address == SCY {
            PpuModel { scy: value, ..self }
        } else if address == SCX {
            PpuModel { scx: value, ..self }
        } else if address == LYC {
            (PpuModel { lyc: value, ..self }).with_coincidence()
        } else if address == BGP {
            PpuModel { bgp: value, ..self }
        } else if address == OBP0 {
            PpuModel { obp0: value, ..self }
        } else if address == OBP1 {
            PpuModel { obp1: value, ..self }
        } else if address == WY {
            (PpuModel { wy: value, ..self }).with_window_begun()
        } else if address == WX {
            PpuModel { wx: value, ..self }
        } else {
            self
        }
    }

    /// Whether a write asks for the LCD STAT interrupt: a write to LCDC that
    /// switches the display off, to STAT or to LYC, where afterwards LY
    /// equals LYC and STAT asks for that interrupt; a write to STAT also
    /// where it asks for the interrupt of the mode that it shows.
    pub open spec fn write_interrupt(self, address: u16, value: u8) -> bool
        recommends
            ppu_address(address),
    {
        if address == LCDC {
            self.switches_off(value) && self.switched_off(value).ly_interrupt(0)
        } else if address == STAT {
            self.with_stat(value).coincidence_interrupt() || self.write_stat(value).mode_interrupt(
                mode_of_bits(self.write_stat(value).stat),
            )
        } else if address == LYC {
            (PpuModel { lyc: value, ..self }).coincidence_interrupt()
        } else {
            false
        }
    }
}

} // verus!
