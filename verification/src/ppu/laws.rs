//! What holds of the pixel unit in every state.

use crate::ppu::lemma_color_in_range;
use crate::ppu::model::drawn_before;
use crate::ppu::model::has_bit;
use crate::ppu::model::Mode;
use crate::ppu::model::PpuModel;
use crate::ppu::model::SpriteInput;
use crate::ppu::model::mode_bits;
use crate::ppu::model::LCDC;
use crate::ppu::model::LCD_ENABLE;
use crate::ppu::model::LY;
use crate::ppu::model::STAT;
use vstd::prelude::*;

verus! {

/// The sprite seen at a column is one that puts a pixel there, and every
/// other sprite that puts a pixel there is drawn before it. Where no sprite
/// is seen, none puts a pixel there.
pub proof fn law_top_sprite_is_drawn_last(input: SpriteInput, behind: Seq<u8>, col: int, n: int)
    requires
        0 <= n <= input.sprites().len(),
    ensures
        input.top_sprite(behind, col, n) matches Some(t) ==> 0 <= t < n && input.paints(
            input.sprites()[t],
            behind,
            col,
        ) && forall|i: int|
            0 <= i < n && i != t && input.paints(#[trigger] input.sprites()[i], behind, col)
                ==> drawn_before(input.sprites(), i, t),
        input.top_sprite(behind, col, n) is None ==> forall|i: int|
            0 <= i < n ==> !input.paints(#[trigger] input.sprites()[i], behind, col),
    decreases n,
{
    if n > 0 {
        law_top_sprite_is_drawn_last(input, behind, col, n - 1);
    }
}

/// No more than ten sprites are drawn on a line.
pub proof fn law_at_most_ten_sprites(oam: Seq<u8>, height: u8, ly: u8, n: int)
    ensures
        crate::ppu::model::selected_sprites(oam, height, ly, n).len() <= 10,
        crate::ppu::model::selected_sprites(oam, height, ly, n).len() <= n || n < 0,
    decreases n,
{
    if n > 0 {
        law_at_most_ten_sprites(oam, height, ly, n - 1);
    }
}

/// Drawing a line leaves the frame with 144 lines of 160 colours from 0 to 3.
pub proof fn law_draw_line_keeps_frame(p: PpuModel)
    requires
        p.wf(),
        p.ly < 144,
        p.window_within(0),
        p.line_drawn(),
    ensures
        p.draw_line().wf(),
{
    let line = p.drawn_line();
    let back = p.drawn_background();
    assert forall|c: int| 0 <= c < 160 implies #[trigger] back[c] <= 3 by {
        if p.draws_background() {
            lemma_color_in_range(p.bg_input().bgp, p.bg_input().bg_index(c));
        }
    }
    assert forall|c: int| 0 <= c < 160 implies #[trigger] line[c] <= 3 by {
        if p.draws_sprites() {
            let input = p.sprite_input();
            match input.top_sprite(p.drawn_indices(), c, input.sprites().len() as int) {
                Some(i) => {
                    let s = input.sprites()[i];
                    lemma_color_in_range(
                        if has_bit(s.attributes, crate::ppu::model::PALETTE_NUMBER) {
                            input.obp1
                        } else {
                            input.obp0
                        },
                        input.sprite_index(s, c),
                    );
                },
                None => {
                    assert(back[c] <= 3);
                },
            }
        } else {
            assert(back[c] <= 3);
        }
    }
    let after = p.draw_line();
    assert forall|r: int, c: int| 0 <= r < 144 && 0 <= c < 160 implies #[trigger] after.buf[r][c]
        <= 3 by {
        if r == p.ly {
            assert(after.buf[r] == line);
            assert(line[c] <= 3);
        } else {
            assert(after.buf[r] == p.buf[r]);
        }
    }
    assert forall|r: int| 0 <= r < 144 implies (#[trigger] after.buf[r]).len() == 160 by {
        if r == p.ly {
            assert(after.buf[r] == line);
        } else {
            assert(after.buf[r] == p.buf[r]);
        }
    }
}

/// A stretch of at most 80 T-cycles leaves the unit in order.
pub proof fn law_chunk_keeps_frame(p: PpuModel, chunk: u32)
    requires
        p.wf(),
        chunk <= 80,
    ensures
        p.step_chunk(chunk).ppu.wf(),
{
    let counted = PpuModel { internal_cycles: (p.internal_cycles + chunk) as u32, ..p };
    if counted.internal_cycles >= 456 {
    } else if counted.ly < 144 {
        if counted.internal_cycles > 168 && counted.mode != Mode::HBlank {
            law_draw_line_keeps_frame(counted.switch_mode(Mode::HBlank));
        }
    }
}

/// Whatever the unit draws, the frame keeps its shape of 144 lines of 160
/// pixels, and every pixel is one of the colours 0 to 3.
pub proof fn law_step_keeps_frame(p: PpuModel, cycles: u32)
    requires
        p.wf(),
    ensures
        p.step(cycles).ppu.wf(),
        p.step(cycles).ppu.buf.len() == 144,
        forall|r: int, c: int|
            0 <= r < 144 && 0 <= c < 160 ==> (#[trigger] p.step(cycles).ppu.buf[r]).len() == 160
                && #[trigger] p.step(cycles).ppu.buf[r][c] <= 3,
{
    if has_bit(p.lcdc, LCD_ENABLE) {
        lemma_step_on_keeps_frame(p, cycles);
    }
}

proof fn lemma_step_on_keeps_frame(p: PpuModel, cycles: u32)
    requires
        p.wf(),
    ensures
        p.step_on(cycles).ppu.wf(),
    decreases cycles,
{
    if cycles > 0 {
        let chunk: u32 = if cycles >= 80 {
            80
        } else {
            cycles
        };
        law_chunk_keeps_frame(p, chunk);
        lemma_step_on_keeps_frame(p.step_chunk(chunk).ppu, (cycles - chunk) as u32);
    }
}

/// Switching the display off puts the unit at the start of line 0 in the
/// vertical blank, which the low two bits of STAT show; it ends the window,
/// keeps the rest of the frame blank, and leaves the memories and the frame
/// as they are. While the display is off nothing moves.
pub proof fn law_display_off(p: PpuModel, value: u8)
    requires
        has_bit(p.lcdc, LCD_ENABLE),
        !has_bit(value, LCD_ENABLE),
    ensures
        p.write(LCDC, value).lcdc == value,
        p.write(LCDC, value).internal_cycles == 0,
        p.write(LCDC, value).mode == Mode::VBlank,
        p.write(LCDC, value).stat & 0b11 == 1,
        p.write(LCDC, value).stat & 0b0111_1000 == p.stat & 0b0111_1000,
        (p.write(LCDC, value).stat & 0b100 != 0) == (p.lyc == 0),
        p.write(LCDC, value).ly == 0,
        p.write(LCDC, value).window_counter is None,
        p.write(LCDC, value).blank_frame,
        p.write(LCDC, value).ram == p.ram,
        p.write(LCDC, value).oam == p.oam,
        p.write(LCDC, value).buf == p.buf,
        p.write(LCDC, value).step(456).ppu == p.write(LCDC, value),
{
    let stat: u8 = p.stat;
    let entered: u8 = (stat & 0b0111_1000) | 0b01;
    let on: u8 = entered | 0b100;
    let off: u8 = entered & !0b100u8;
    assert(on & 0b11 == 1 && off & 0b11 == 1 && on & 0b0111_1000 == stat & 0b0111_1000 && off
        & 0b0111_1000 == stat & 0b0111_1000 && on & 0b100 != 0 && off & 0b100 == 0)
        by (bit_vector)
        requires
            entered == (stat & 0b0111_1000) | 0b01,
            on == entered | 0b100,
            off == entered & !0b100u8,
    ;
}

/// A line that is drawn after the display was switched off, and before the
/// next vertical blank, comes out blank.
pub proof fn law_lines_after_display_off_are_blank(p: PpuModel)
    requires
        p.wf(),
        p.blank_frame,
        p.ly < 144,
    ensures
        p.draw_line().buf[p.ly as int] == crate::ppu::model::blank_line(),
        p.draw_line().blank_frame,
{
}

/// A write to LY changes nothing.
pub proof fn law_ly_cannot_be_written(p: PpuModel, value: u8)
    ensures
        p.write(LY, value) == p,
{
}

/// After a write to STAT, bits 3 to 6 are those written, the low two bits
/// show the mode, and bit 2 says whether LY equals LYC.
pub proof fn law_stat_write(p: PpuModel, value: u8)
    ensures
        p.write(STAT, value).stat & 0b0111_1000 == value & 0b0111_1000,
        p.write(STAT, value).stat & 0b11 == mode_bits(p.mode),
        (p.write(STAT, value).stat & 0b100 != 0) == (p.lyc == p.ly),
{
    let m: u8 = mode_bits(p.mode);
    let on: u8 = ((value & 0b0111_1000) | m) | 0b100;
    let off: u8 = ((value & 0b0111_1000) | m) & !0b100u8;
    assert(m < 4 ==> on & 0b0111_1000 == value & 0b0111_1000 && on & 0b11 == m && on & 0b100 != 0
        && off & 0b0111_1000 == value & 0b0111_1000 && off & 0b11 == m && off & 0b100 == 0)
        by (bit_vector)
        requires
            on == ((value & 0b0111_1000) | m) | 0b100,
            off == ((value & 0b0111_1000) | m) & !0b100u8,
    ;
}

} // verus!
