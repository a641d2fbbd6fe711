//! The pixel unit: video memory, sprite memory, the registers, and the
//! scanline machine that draws the frame line by line.

use crate::ppu::model::blank_frame;
use crate::ppu::model::blank_line;
use crate::ppu::model::color_of;
use crate::ppu::model::covers_line;
use crate::ppu::model::has_bit;
use crate::ppu::model::mode_bits;
use crate::ppu::model::mode_of_bits;
use crate::ppu::model::palette_index_of;
use crate::ppu::model::ppu_address;
use crate::ppu::model::selected_sprites;
use crate::ppu::model::sprite_at;
use crate::ppu::model::with_bit;
use crate::ppu::model::wrap8;
use crate::ppu::model::Mode;
use crate::ppu::model::PpuModel;
use crate::ppu::model::Sprite;
use crate::ppu::model::BCPD;
use crate::ppu::model::BCPS;
use crate::ppu::model::BGP;
use crate::ppu::model::BG_AND_WINDOW_OVER_OBJ;
use crate::ppu::model::BG_TILE_MAP_AREA;
use crate::ppu::model::BG_WINDOW_ENABLE;
use crate::ppu::model::BG_WINDOW_TILE_DATA_AREA;
use crate::ppu::model::LCDC;
use crate::ppu::model::LCD_ENABLE;
use crate::ppu::model::LINE_CYCLES;
use crate::ppu::model::LY;
use crate::ppu::model::LYC;
use crate::ppu::model::LYC_EQ_LY;
use crate::ppu::model::LYC_EQ_LY_INT;
use crate::ppu::model::MODE0_HBLANK_INT;
use crate::ppu::model::MODE1_VBLANK_INT;
use crate::ppu::model::MODE2_OAM_INT;
use crate::ppu::model::OBJ_ENABLE;
use crate::ppu::model::OBJ_SIZE;
use crate::ppu::model::OBP0;
use crate::ppu::model::OBP1;
use crate::ppu::model::OCPS;
use crate::ppu::model::PALETTE_NUMBER;
use crate::ppu::model::SCX;
use crate::ppu::model::SCY;
use crate::ppu::model::STAT;
use crate::ppu::model::UNKNOWN_1;
use crate::ppu::model::VBK;
use crate::ppu::model::WINDOW_ENABLE;
use crate::ppu::model::WINDOW_TILE_AREA;
use crate::ppu::model::WX;
use crate::ppu::model::WY;
use crate::ppu::model::X_FLIP;
use crate::ppu::model::Y_FLIP;
use vstd::prelude::*;

pub mod laws;
pub mod model;

verus! {

/// The pixel unit.
pub struct Ppu {
    m_ram: [u8; 0x2000],
    m_oam: [u8; 0xA0],
    m_lcdc: u8,
    m_stat: u8,
    m_scy: u8,
    m_scx: u8,
    m_ly: u8,
    m_lyc: u8,
    m_dma: u8,
    m_bgp: u8,
    m_obp0: u8,
    m_obp1: u8,
    m_wy: u8,
    m_wx: u8,
    pub buf: [[u8; 160]; 144],
    internal_cycles: u32,
    mode: Mode,
    window_counter: Option<u8>,
    palette_index: [u8; 160],
    blank_frame: bool,
    pub enable_background: bool,
    pub enable_obj: bool,
}

/// A frame as lines of colours.
pub open spec fn frame_of(buf: [[u8; 160]; 144]) -> Seq<Seq<u8>> {
    Seq::new(144, |r: int| buf@[r]@)
}

impl View for Ppu {
    type V = PpuModel;

    closed spec fn view(&self) -> PpuModel {
        PpuModel {
            ram: self.m_ram@,
            oam: self.m_oam@,
            lcdc: self.m_lcdc,
            stat: self.m_stat,
            scy: self.m_scy,
            scx: self.m_scx,
            ly: self.m_ly,
            lyc: self.m_lyc,
            dma: self.m_dma,
            bgp: self.m_bgp,
            obp0: self.m_obp0,
            obp1: self.m_obp1,
            wy: self.m_wy,
            wx: self.m_wx,
            buf: frame_of(self.buf),
            internal_cycles: self.internal_cycles,
            mode: self.mode,
            window_counter: self.window_counter,
            palette_index: self.palette_index@,
            blank_frame: self.blank_frame,
            enable_background: self.enable_background,
            enable_obj: self.enable_obj,
        }
    }
}

/// A colour is one of four.
pub proof fn lemma_color_in_range(palette: u8, index: u8)
    ensures
        color_of(palette, index) <= 3,
{
    let shifted: u8 = palette >> ((2 * index) as u8);
    assert(shifted & 0b11 <= 3) by (bit_vector);
}

fn mode_number(mode: Mode) -> (bits: u8)
    ensures
        bits == mode_bits(mode),
{
    match mode {
        Mode::HBlank => 0b00,
        Mode::VBlank => 0b01,
        Mode::InOAM => 0b10,
        Mode::TransferData => 0b11,
    }
}

/// Whether any bit of `attribute` is set in a sprite's attribute byte.
pub fn get_attribute(data: u8, attribute: u8) -> (on: bool)
    ensures
        on == has_bit(data, attribute),
{
    data & attribute != 0
}

fn palette_index(low: u8, high: u8, column: u8) -> (index: u8)
    requires
        column < 8,
    ensures
        index == palette_index_of(low, high, column),
        index < 4,
{
    let mask: u8 = 0x80u8 >> column;
    let h: u8 = if high & mask != 0 {
        2
    } else {
        0
    };
    let l: u8 = if low & mask != 0 {
        1
    } else {
        0
    };
    h + l
}

fn sprite_covers(s: &Sprite, height: u8, ly: u8) -> (covers: bool)
    ensures
        covers == covers_line(*s, height, ly),
{
    let y_end: u8 = s.y.wrapping_add(height);
    (s.y <= ly && ly < y_end) || (s.y > 240 && y_end < 144 && ly < y_end)
}

fn color(palette: u8, index: u8) -> (c: u8)
    requires
        index < 4,
    ensures
        c == color_of(palette, index),
        c <= 3,
{
    proof {
        lemma_color_in_range(palette, index);
    }
    (palette >> (2 * index)) & 0b11
}

impl Ppu {
    /// The memories have their sizes, the frame holds colours only, the
    /// line and cycle counts are within a frame and a line, and the window
    /// has moved on by no more than one line for each line drawn.
    pub open spec fn wf(&self) -> bool {
        self@.wf()
    }

    /// The pixel unit at power-on, with background and sprites switched on.
    pub fn new() -> (p: Ppu)
        ensures
            p.wf(),
            p@ == PpuModel::power_on(true, true),
    {
        let mut p = Ppu {
            m_ram: [0; 0x2000],
            m_oam: [0; 0xA0],
            m_lcdc: 0x91,
            m_stat: 0x81,
            m_scy: 0x00,
            m_scx: 0x00,
            m_ly: 0x91,
            m_lyc: 0x00,
            m_dma: 0xFF,
            m_bgp: 0xFC,
            m_obp0: 0x00,
            m_obp1: 0x00,
            m_wy: 0x00,
            m_wx: 0x00,
            buf: [[0x00; 160]; 144],
            internal_cycles: 0,
            mode: Mode::VBlank,
            window_counter: None,
            palette_index: [0x00; 160],
            blank_frame: false,
            enable_background: true,
            enable_obj: true,
        };
        p.reset();
        p
    }

    /// Back to the power-on state. The two switches for debugging keep
    /// their setting.
    pub fn reset(&mut self)
        ensures
            final(self).wf(),
            final(self)@ == PpuModel::power_on(old(self)@.enable_background, old(self)@.enable_obj),
    {
        self.m_ram = [0; 0x2000];
        self.m_oam = [0; 0xA0];
        self.m_lcdc = 0x91;
        self.m_stat = 0x81;
        self.m_scy = 0x00;
        self.m_scx = 0x00;
        self.m_ly = 0x91;
        self.m_lyc = 0x00;
        self.m_dma = 0xFF;
        self.m_bgp = 0xFC;
        self.m_obp0 = 0x00;
        self.m_obp1 = 0x00;
        self.m_wy = 0x00;
        self.m_wx = 0x00;
        self.buf = [[0x00; 160]; 144];
        self.internal_cycles = 0;
        self.mode = Mode::VBlank;
        self.window_counter = None;
        self.palette_index = [0x00; 160];
        self.blank_frame = false;
        proof {
            let want = PpuModel::power_on(old(self)@.enable_background, old(self)@.enable_obj);
            assert(self@.ram =~= want.ram);
            assert(self@.oam =~= want.oam);
            assert(self@.palette_index =~= want.palette_index);
            assert forall|r: int| 0 <= r < 144 implies #[trigger] self@.buf[r] =~= want.buf[r] by {
                assert(self.buf@[r]@ =~= blank_line());
            }
            assert(self@.buf =~= want.buf);
        }
    }

    /// The frame as it stands: 144 lines of 160 colours, each from 0 to 3.
    pub fn get_buf(&self) -> (buf: [[u8; 160]; 144])
        requires
            self.wf(),
        ensures
            frame_of(buf) == self@.buf,
            forall|r: int, c: int| 0 <= r < 144 && 0 <= c < 160 ==> #[trigger] buf@[r]@[c] <= 3,
    {
        proof {
            assert forall|r: int, c: int| 0 <= r < 144 && 0 <= c < 160 implies #[trigger] self.buf@[r]@[c]
                <= 3 by {
                assert(self@.buf[r][c] <= 3);
            }
        }
        self.buf
    }

    fn stat_check_mode(&self) -> (interrupt: bool)
        ensures
            interrupt == self@.mode_interrupt(mode_of_bits(self@.stat)),
    {
        let bits: u8 = self.m_stat & 0b11;
        if bits == 0b00 {
            self.get_stat_flag(MODE0_HBLANK_INT)
        } else if bits == 0b01 {
            self.get_stat_flag(MODE1_VBLANK_INT)
        } else if bits == 0b10 {
            self.get_stat_flag(MODE2_OAM_INT)
        } else {
            false
        }
    }

    fn stat_switch_mode(&mut self, mode: Mode) -> (interrupt: bool)
        ensures
            final(self)@ == old(self)@.switch_mode(mode),
            interrupt == final(self)@.mode_interrupt(mode),
    {
        self.mode = mode;
        self.m_stat = (self.m_stat & 0b0111_1000) | mode_number(mode);
        match mode {
            Mode::HBlank => self.get_stat_flag(MODE0_HBLANK_INT),
            Mode::VBlank => self.get_stat_flag(MODE1_VBLANK_INT),
            Mode::InOAM => self.get_stat_flag(MODE2_OAM_INT),
            Mode::TransferData => false,
        }
    }

    fn update_stat_ly(&mut self) -> (interrupt: bool)
        ensures
            final(self)@ == old(self)@.with_coincidence(),
            interrupt == old(self)@.coincidence_interrupt(),
    {
        let eq: bool = self.m_lyc == self.m_ly;
        self.set_stat_flag(LYC_EQ_LY, eq);
        eq && self.get_stat_flag(LYC_EQ_LY_INT)
    }

    fn write_ly(&mut self, new_ly: u8) -> (interrupt: bool)
        ensures
            final(self)@ == old(self)@.with_ly(new_ly),
            interrupt == old(self)@.ly_interrupt(new_ly),
    {
        self.m_ly = new_ly;
        self.update_stat_ly()
    }

    fn write_wy(&mut self, new_wy: u8)
        ensures
            final(self)@ == (PpuModel { wy: new_wy, ..old(self)@ }).with_window_begun(),
    {
        self.m_wy = new_wy;
        self.begin_window();
    }

    fn begin_window(&mut self)
        ensures
            final(self)@ == old(self)@.with_window_begun(),
    {
        if self.m_ly == self.m_wy && self.window_counter.is_none() && self.get_lcdc_flag(
            WINDOW_ENABLE,
        ) {
            self.window_counter = Some(0);
        }
    }

    /// Advances the unit by `cycles` T-cycles. The two results ask for the
    /// vertical-blank interrupt and for the LCD STAT interrupt.
    pub fn step(&mut self, cycles: u32) -> (r: (bool, bool))
        requires
            old(self).wf(),
        ensures
            final(self).wf(),
            final(self)@ == old(self)@.step(cycles).ppu,
            r.0 == old(self)@.step(cycles).vblank,
            r.1 == old(self)@.step(cycles).lcdstat,
    {
        let mut intf_vblank: bool = false;
        let mut intf_lcdstat: bool = false;
        if self.get_lcdc_flag(LCD_ENABLE) {
            let mut left: u32 = cycles;
            while left > 0
                invariant
                    self.wf(),
                    old(self)@.step_on(cycles).ppu == self@.step_on(left).ppu,
                    old(self)@.step_on(cycles).vblank == (intf_vblank || self@.step_on(
                        left,
                    ).vblank),
                    old(self)@.step_on(cycles).lcdstat == (intf_lcdstat || self@.step_on(
                        left,
                    ).lcdstat),
                decreases left,
            {
                let chunk: u32 = if left >= 80 {
                    80
                } else {
                    left
                };
                let (vblank, lcdstat): (bool, bool) = self.step_chunk(chunk);
                intf_vblank = intf_vblank || vblank;
                intf_lcdstat = intf_lcdstat || lcdstat;
                left = left - chunk;
            }
        }
        (intf_vblank, intf_lcdstat)
    }

    fn step_chunk(&mut self, chunk: u32) -> (r: (bool, bool))
        requires
            old(self).wf(),
            chunk <= 80,
        ensures
            final(self).wf(),
            final(self)@ == old(self)@.step_chunk(chunk).ppu,
            r.0 == old(self)@.step_chunk(chunk).vblank,
            r.1 == old(self)@.step_chunk(chunk).lcdstat,
    {
        let mut vblank: bool = false;
        let mut lcdstat: bool = false;
        self.internal_cycles = self.internal_cycles + chunk;
        if self.internal_cycles >= LINE_CYCLES {
            self.internal_cycles = self.internal_cycles - LINE_CYCLES;
            let next: u8 = (self.m_ly + 1) % 154;
            lcdstat = self.write_ly(next);
            if self.m_ly == 144 {
                let entered: bool = self.stat_switch_mode(Mode::VBlank);
                lcdstat = lcdstat || entered;
                vblank = true;
                self.window_counter = None;
                self.blank_frame = false;
            }
        } else if self.m_ly < 144 {
            if self.internal_cycles <= 80 {
                match self.mode {
                    Mode::InOAM => {},
                    _ => {
                        lcdstat = self.stat_switch_mode(Mode::InOAM);
                    },
                }
            } else if self.internal_cycles <= 168 {
                match self.mode {
                    Mode::TransferData => {},
                    _ => {
                        self.stat_switch_mode(Mode::TransferData);
                        self.begin_window();
                    },
                }
            } else {
                match self.mode {
                    Mode::HBlank => {},
                    _ => {
                        lcdstat = self.stat_switch_mode(Mode::HBlank);
                        self.draw_line();
                    },
                }
            }
        }
        (vblank, lcdstat)
    }

    fn draw_line(&mut self)
        requires
            old(self).wf(),
            old(self)@.ly < 144,
            old(self)@.window_within(0),
            old(self)@.line_drawn(),
        ensures
            final(self).wf(),
            final(self)@ == old(self)@.draw_line(),
    {
        let ghost line: int = self.m_ly as int;
        self.blank_line();
        let ghost blanked = self@;
        if !self.blank_frame {
            if self.enable_background {
                self.render_bg_line();
            }
            let ghost with_background = self@;
            if self.enable_obj {
                self.render_obj_line();
            }
            proof {
                assert(with_background.sprite_input() == old(self)@.sprite_input());
                assert(with_background.palette_index == old(self)@.drawn_indices());
                assert(with_background.buf[line] =~= old(self)@.drawn_background());
            }
        }
        assert(self@.buf =~= old(self)@.draw_line().buf);
    }

    /// Fills line LY of the frame with colour 0.
    fn blank_line(&mut self)
        requires
            old(self).wf(),
            old(self)@.ly < 144,
        ensures
            final(self).wf(),
            final(self)@ == (PpuModel {
                buf: old(self)@.buf.update(old(self)@.ly as int, blank_line()),
                ..old(self)@
            }),
    {
        self.buf[self.m_ly as usize] = [0x00; 160];
        proof {
            let want = old(self)@.buf.update(old(self)@.ly as int, blank_line());
            assert(self.buf@[self.m_ly as int]@ =~= blank_line());
            assert forall|r: int| 0 <= r < 144 implies #[trigger] self@.buf[r] == want[r] by {
                if r != self.m_ly {
                    assert(self.buf@[r] == old(self).buf@[r]);
                }
            }
            assert(self@.buf =~= want);
        }
    }

    fn bg_map_base(&self, window: bool) -> (base: u16)
        ensures
            base == self@.bg_input_with(None).map_base(window),
            base == 0x9800 || base == 0x9C00,
    {
        if window {
            if self.get_lcdc_flag(WINDOW_TILE_AREA) {
                0x9C00
            } else {
                0x9800
            }
        } else if self.get_lcdc_flag(BG_TILE_MAP_AREA) {
            0x9C00
        } else {
            0x9800
        }
    }

    /// The palette index of the background or window at column `x`.
    fn bg_index_at(&self, x: usize, window_y: Option<u8>) -> (index: u8)
        requires
            x < 160,
            window_y is Some ==> self@.wx <= 166,
        ensures
            index == self@.bg_input_with(window_y).bg_index(x as int),
            index < 4,
    {
        let ghost input = self@.bg_input_with(window_y);
        let window_x: i32 = (x as i32) - ((self.m_wx as i32) - 7);
        let window_visible: bool = window_y.is_some() && window_x >= 0;
        let (full_x, full_y): (usize, usize) = match window_y {
            Some(line) if window_x >= 0 => (window_x as usize, line as usize),
            _ => ((x + (self.m_scx as usize)) % 256, ((self.m_ly as usize) + (
            self.m_scy as usize)) % 256),
        };
        assert(full_x == input.plane_x(x as int));
        assert(full_y == input.plane_y(x as int));
        let map_base: usize = self.bg_map_base(window_visible) as usize;
        assert(map_base == input.map_base(input.window_visible(x as int)));
        let tilemap_addr: usize = map_base + full_x / 8 + (full_y / 8) * 32;
        let tile_index: usize = self.m_ram[tilemap_addr - 0x8000] as usize;
        let tile_addr: usize = if self.get_lcdc_flag(BG_WINDOW_TILE_DATA_AREA) {
            0x8000 + tile_index * 16
        } else if tile_index < 128 {
            0x9000 + tile_index * 16
        } else {
            0x9000 - (256 - tile_index) * 16
        };
        let row: usize = tile_addr + (full_y % 8) * 2 - 0x8000;
        palette_index(self.m_ram[row], self.m_ram[row + 1], (full_x % 8) as u8)
    }

    fn render_bg_line(&mut self)
        requires
            old(self).wf(),
            old(self)@.ly < 144,
            !old(self)@.blank_frame,
            old(self)@.enable_background,
            old(self)@.buf[old(self)@.ly as int] == blank_line(),
            old(self)@.window_within(0),
            old(self)@.line_drawn(),
        ensures
            final(self).wf(),
            final(self)@ == (PpuModel {
                buf: old(self)@.buf.update(old(self)@.ly as int, old(self)@.drawn_background()),
                ..old(self)@.draw_line()
            }),
    {
        if !self.get_lcdc_flag(BG_WINDOW_ENABLE) {
            assert(self@.buf =~= old(self)@.buf.update(
                old(self)@.ly as int,
                old(self)@.drawn_background(),
            ));
            return ;
        }
        let render_window: bool = self.get_lcdc_flag(WINDOW_ENABLE) && self.m_wx <= 166;
        let window_y: Option<u8> = if render_window {
            self.window_counter
        } else {
            None
        };
        let ghost input = self@.bg_input();
        let mut line: [u8; 160] = [0; 160];
        let mut indices: [u8; 160] = [0; 160];
        let mut x: usize = 0;
        while x < 160
            invariant
                x <= 160,
                input == self@.bg_input_with(window_y),
                window_y is Some ==> self@.wx <= 166,
                forall|c: int| 0 <= c < x ==> #[trigger] line@[c] == input.bg_color(c),
                forall|c: int| 0 <= c < x ==> #[trigger] line@[c] <= 3,
                forall|c: int| 0 <= c < x ==> #[trigger] indices@[c] == input.bg_index(c),
            decreases 160 - x,
        {
            let index: u8 = self.bg_index_at(x, window_y);
            let shade: u8 = color(self.m_bgp, index);
            assert(index == input.bg_index(x as int));
            assert(self.m_bgp == input.bgp);
            assert(shade == input.bg_color(x as int));
            let ghost line_before = line@;
            let ghost indices_before = indices@;
            indices[x] = index;
            line[x] = shade;
            assert(line@ == line_before.update(x as int, shade));
            assert(indices@ == indices_before.update(x as int, index));
            x = x + 1;
        }
        match window_y {
            Some(line) => {
                self.window_counter = Some(line + 1);
            },
            None => {},
        }
        self.palette_index = indices;
        self.buf[self.m_ly as usize] = line;
        proof {
            let want = PpuModel {
                buf: old(self)@.buf.update(old(self)@.ly as int, old(self)@.drawn_background()),
                ..old(self)@.draw_line()
            };
            assert(line@ =~= old(self)@.drawn_background());
            assert(self@.palette_index =~= want.palette_index);
            assert forall|r: int| 0 <= r < 144 implies #[trigger] self@.buf[r] == want.buf[r] by {
                if r != self.m_ly {
                    assert(self.buf@[r] == old(self).buf@[r]);
                }
            }
            assert(self@.buf =~= want.buf);
        }
    }

    /// The palette index that a sprite puts at column `col`, where it puts a pixel there.
    fn sprite_index_at(
        &self,
        s: &Sprite,
        low: u8,
        high: u8,
        behind: u8,
        col: usize,
    ) -> (r: Option<u8>)
        requires
            col < 160,
            (low, high) == self@.sprite_input().sprite_row_bytes(*s),
        ensures
            r is Some <==> self@.sprite_input().paints(
                *s,
                self@.palette_index.update(col as int, behind),
                col as int,
            ),
            r matches Some(index) ==> index == self@.sprite_input().sprite_index(*s, col as int)
                && 0 < index < 4,
    {
        if !(s.x < 160 || s.x.wrapping_add(7) < 160) {
            return None;
        }
        let rel_x: u8 = (col as u8).wrapping_sub(s.x);
        if rel_x >= 8 {
            return None;
        }
        if behind != 0 && get_attribute(s.attributes, BG_AND_WINDOW_OVER_OBJ) {
            return None;
        }
        let column: u8 = if get_attribute(s.attributes, X_FLIP) {
            7 - rel_x
        } else {
            rel_x
        };
        let index: u8 = palette_index(low, high, column);
        if index == 0 {
            None
        } else {
            Some(index)
        }
    }

    /// The sprite of OAM entry `number`.
    fn sprite_entry(&self, number: usize) -> (s: Sprite)
        requires
            number < 40,
        ensures
            s == sprite_at(self@.oam, number as int),
    {
        let base: usize = number * 4;
        Sprite {
            y: self.m_oam[base].wrapping_sub(16),
            x: self.m_oam[base + 1].wrapping_sub(8),
            raw_x: self.m_oam[base + 1],
            tile_index: self.m_oam[base + 2],
            attributes: self.m_oam[base + 3],
        }
    }

    /// The row of its tile that a sprite shows on line LY.
    fn sprite_row(&self, s: &Sprite) -> (row: u8)
        ensures
            row == self@.sprite_input().sprite_row(*s),
    {
        let obj_height: u8 = if self.get_lcdc_flag(OBJ_SIZE) {
            16
        } else {
            8
        };
        let down: u8 = self.m_ly.wrapping_sub(s.y);
        assert(down == wrap8(self.m_ly - s.y));
        if get_attribute(s.attributes, Y_FLIP) {
            let up: u8 = (obj_height - 1).wrapping_sub(down);
            assert(up == wrap8((obj_height - 1) - down));
            up
        } else {
            down
        }
    }

    /// The offset into video memory of the tile of a sprite.
    fn sprite_tile_offset(&self, s: &Sprite) -> (offset: usize)
        ensures
            offset + 0x8000 == self@.sprite_input().sprite_tile_address(*s),
            offset <= 255 * 16,
    {
        let tile: u8 = if self.get_lcdc_flag(OBJ_SIZE) {
            s.tile_index & 0b1111_1110
        } else {
            s.tile_index
        };
        (tile as usize) * 16
    }

    /// The two bytes of the row of its tile that a sprite shows on line LY.
    fn sprite_row_of(&self, s: &Sprite) -> (bytes: (u8, u8))
        ensures
            bytes == self@.sprite_input().sprite_row_bytes(*s),
    {
        let row: usize = self.sprite_row(s) as usize;
        let address: usize = self.sprite_tile_offset(s) + row * 2;
        let low: u8 = self.m_ram[address];
        let high: u8 = self.m_ram[address + 1];
        (low, high)
    }

    fn render_obj_line(&mut self)
        requires
            old(self).wf(),
            old(self)@.ly < 144,
            !old(self)@.blank_frame,
            old(self)@.enable_obj,
        ensures
            final(self).wf(),
            final(self)@ == (PpuModel {
                buf: old(self)@.buf.update(
                    old(self)@.ly as int,
                    if has_bit(old(self)@.lcdc, OBJ_ENABLE) {
                        old(self)@.sprite_input().with_sprites(
                            old(self)@.buf[old(self)@.ly as int],
                            old(self)@.palette_index,
                        )
                    } else {
                        old(self)@.buf[old(self)@.ly as int]
                    },
                ),
                ..old(self)@
            }),
    {
        if !self.get_lcdc_flag(OBJ_ENABLE) {
            assert(self@.buf =~= old(self)@.buf.update(
                old(self)@.ly as int,
                old(self)@.buf[old(self)@.ly as int],
            ));
            return ;
        }
        let ghost input = self@.sprite_input();
        let tall_objects: bool = self.get_lcdc_flag(OBJ_SIZE);
        let obj_height: u8 = if tall_objects {
            16
        } else {
            8
        };
        let none = Sprite { y: 0, x: 0, raw_x: 0, tile_index: 0, attributes: 0 };
        let mut sprites: [Sprite; 10] = [none; 10];
        let mut lows: [u8; 10] = [0; 10];
        let mut highs: [u8; 10] = [0; 10];
        let mut count: usize = 0;
        let mut obj_num: usize = 0;
        let ghost mut found: Seq<Sprite> = Seq::empty();
        while obj_num < 40
            invariant
                obj_num <= 40,
                count <= 10,
                input == self@.sprite_input(),
                obj_height == input.sprite_height(),
                found == selected_sprites(input.oam, obj_height, input.ly, obj_num as int),
                count == found.len(),
                forall|i: int| 0 <= i < count ==> sprites@[i] == found[i],
                forall|i: int|
                    0 <= i < count ==> (lows@[i], highs@[i]) == input.sprite_row_bytes(sprites@[i]),
            decreases 40 - obj_num,
        {
            let s: Sprite = self.sprite_entry(obj_num);
            if count < 10 && sprite_covers(&s, obj_height, self.m_ly) {
                let (low, high): (u8, u8) = self.sprite_row_of(&s);
                sprites[count] = s;
                lows[count] = low;
                highs[count] = high;
                count = count + 1;
                proof {
                    found = found.push(s);
                }
            }
            obj_num = obj_num + 1;
        }
        let ghost chosen = input.sprites();
        let ghost behind = self@.palette_index;
        let ghost under = self@.buf[self.m_ly as int];
        let mut line: [u8; 160] = self.buf[self.m_ly as usize];
        assert(line@ == under);
        let mut col: usize = 0;
        while col < 160
            invariant
                col <= 160,
                count == chosen.len(),
                count <= 10,
                chosen == input.sprites(),
                input == self@.sprite_input(),
                behind == self@.palette_index,
                behind.len() == 160,
                under.len() == 160,
                forall|c: int| 0 <= c < 160 ==> under[c] <= 3,
                forall|i: int| 0 <= i < count ==> sprites@[i] == chosen[i],
                forall|i: int|
                    0 <= i < count ==> (lows@[i], highs@[i]) == input.sprite_row_bytes(sprites@[i]),
                forall|c: int| 0 <= c < col ==> line@[c] == input.with_sprites(under, behind)[c],
                forall|c: int| col <= c < 160 ==> line@[c] == under[c],
                forall|c: int| 0 <= c < 160 ==> line@[c] <= 3,
            decreases 160 - col,
        {
            let mut top: Option<usize> = None;
            let mut top_index: u8 = 0;
            let mut k: usize = 0;
            while k < count
                invariant
                    k <= count,
                    col < 160,
                    count == chosen.len(),
                    count <= 10,
                    chosen == input.sprites(),
                    input == self@.sprite_input(),
                    behind == self@.palette_index,
                    behind.len() == 160,
                    forall|i: int| 0 <= i < count ==> sprites@[i] == chosen[i],
                    forall|i: int|
                        0 <= i < count ==> (lows@[i], highs@[i]) == input.sprite_row_bytes(
                            sprites@[i],
                        ),
                    top is Some <==> input.top_sprite(behind, col as int, k as int) is Some,
                    top matches Some(t) ==> input.top_sprite(behind, col as int, k as int) == Some(
                        t as int,
                    ) && t < k && top_index == input.sprite_index(chosen[t as int], col as int)
                        && 0 < top_index < 4,
                decreases count - k,
            {
                let s: Sprite = sprites[k];
                assert(behind.update(col as int, behind[col as int]) =~= behind);
                match self.sprite_index_at(&s, lows[k], highs[k], self.palette_index[col], col) {
                    Some(index) => {
                        let later: bool = match top {
                            Some(t) => sprites[t].raw_x < s.raw_x || (sprites[t].raw_x == s.raw_x
                                && t < k),
                            None => true,
                        };
                        if later {
                            top = Some(k);
                            top_index = index;
                        }
                    },
                    None => {},
                }
                k = k + 1;
            }
            match top {
                Some(t) => {
                    let palette: u8 = if get_attribute(sprites[t].attributes, PALETTE_NUMBER) {
                        self.m_obp1
                    } else {
                        self.m_obp0
                    };
                    line[col] = color(palette, top_index);
                },
                None => {},
            }
            col = col + 1;
        }
        self.buf[self.m_ly as usize] = line;
        proof {
            let want = old(self)@.buf.update(
                old(self)@.ly as int,
                input.with_sprites(under, behind),
            );
            assert(line@ =~= input.with_sprites(under, behind));
            assert forall|r: int| 0 <= r < 144 implies #[trigger] self@.buf[r] == want[r] by {
                if r != self.m_ly {
                    assert(self.buf@[r] == old(self).buf@[r]);
                }
            }
            assert(self@.buf =~= want);
        }
    }

    fn get_lcdc_flag(&self, flag: u8) -> (on: bool)
        ensures
            on == has_bit(self@.lcdc, flag),
    {
        self.m_lcdc & flag != 0
    }

    fn get_stat_flag(&self, flag: u8) -> (on: bool)
        ensures
            on == has_bit(self@.stat, flag),
    {
        self.m_stat & flag != 0
    }

    fn set_stat_flag(&mut self, flag: u8, is_1: bool)
        ensures
            final(self)@ == (PpuModel { stat: with_bit(old(self)@.stat, flag, is_1), ..old(self)@ }),
    {
        if is_1 {
            self.m_stat = self.m_stat | flag;
        } else {
            self.m_stat = self.m_stat & !flag;
        }
    }

    /// Reads the byte at `address`.
    pub fn b(&self, address: u16) -> (value: u8)
        requires
            ppu_address(address),
        ensures
            value == self@.read(address),
    {
        if 0x8000 <= address && address <= 0x9FFF {
            self.m_ram[(address - 0x8000) as usize]
        } else if 0xFE00 <= address && address <= 0xFE9F {
            self.m_oam[(address - 0xFE00) as usize]
        } else if address == LCDC {
            self.m_lcdc
        } else if address == STAT {
            self.m_stat
        } else if address == SCY {
            self.m_scy
        } else if address == SCX {
            self.m_scx
        } else if address == LY {
            self.m_ly
        } else if address == LYC {
            self.m_lyc
        } else if address == BGP {
            self.m_bgp
        } else if address == OBP0 {
            self.m_obp0
        } else if address == OBP1 {
            self.m_obp1
        } else if address == WY {
            self.m_wy
        } else if address == WX {
            self.m_wx
        } else if address == UNKNOWN_1 {
            0xFF
        } else if address == VBK {
            0xFE
        } else if address == BCPS {
            0xC8
        } else if address == BCPD {
            0xFF
        } else if address == OCPS {
            0xD0
        } else {
            0xFF
        }
    }

    /// Writes a register or a byte of memory; true when the write asks for
    /// the LCD STAT interrupt.
    pub fn wb(&mut self, address: u16, value: u8) -> (interrupt: bool)
        requires
            old(self).wf(),
            ppu_address(address),
        ensures
            final(self).wf(),
            final(self)@ == old(self)@.write(address, value),
            interrupt == old(self)@.write_interrupt(address, value),
    {
        if 0x8000 <= address && address <= 0x9FFF {
            self.m_ram[(address - 0x8000) as usize] = value;
        } else if 0xFE00 <= address && address <= 0xFE9F {
            self.m_oam[(address - 0xFE00) as usize] = value;
        } else if address == LCDC {
            let was_enabled: bool = self.get_lcdc_flag(LCD_ENABLE);
            self.m_lcdc = value;
            let is_enabled: bool = self.get_lcdc_flag(LCD_ENABLE);
            if was_enabled && !is_enabled {
                self.internal_cycles = 0;
                self.stat_switch_mode(Mode::VBlank);
                self.blank_frame = true;
                self.window_counter = None;
                return self.write_ly(0);
            }
        } else if address == STAT {
            self.m_stat = (value & 0b0111_1000) | mode_number(self.mode);
            let coincidence: bool = self.update_stat_ly();
            return coincidence || self.stat_check_mode();
        } else if address == SCY {
            self.m_scy = value;
        } else if address == SCX {
            self.m_scx = value;
        } else if address == LYC {
            self.m_lyc = value;
            return self.update_stat_ly();
        } else if address == BGP {
            self.m_bgp = value;
        } else if address == OBP0 {
            self.m_obp0 = value;
        } else if address == OBP1 {
            self.m_obp1 = value;
        } else if address == WY {
            self.write_wy(value);
        } else if address == WX {
            self.m_wx = value;
        }
        false
    }
}

} // verus!
