use crate::ppu::{DmgColor, PPU};
use vstd::prelude::*;

verus! {

/// The colour number of one pixel of a tile row: bit `7 - x % 8` of `low`
/// is its low bit, the same bit of `high` its high bit.
pub open spec fn color_number(low: u8, high: u8, x: u8) -> u8 {
    let shift = (7 - x % 8) as u8;
    ((low >> shift) & 1) | (((high >> shift) & 1) << 1)
}

impl PPU {
    /// Index in video memory of the map entry for the background point
    /// (`x`, `y`): the maps hold 32 by 32 tiles of 8 by 8 pixels.
    pub open spec fn spec_map_index(self, x: u8, y: u8) -> int {
        (if self.bg_map() {
            0x1C00int
        } else {
            0x1800int
        }) + x / 8 + (y / 8) * 32
    }

    /// Index in video memory of the first of the two bytes that hold row
    /// `y % 8` of tile `tile`. With `tile_data` set the tiles are counted
    /// upwards from 0x8000; with it clear `tile` is a signed number counted
    /// from 0x9000.
    pub open spec fn spec_tile_row(self, tile: u8, y: u8) -> int {
        (if self.tile_data() || tile >= 128 {
            tile * 16
        } else {
            0x1000int + tile * 16
        }) + (y % 8) * 2
    }

    /// The colour number of the pixel of `tile` at the background point (`x`, `y`).
    pub open spec fn spec_pixel_from_tile(self, tile: u8, x: u8, y: u8) -> u8 {
        let row = self.spec_tile_row(tile, y);
        color_number(self.vram[row], self.vram[row + 1], x)
    }

    /// The pixel that the background shows at (`x`, `y`), both counted modulo 256.
    pub open spec fn spec_background(self, x: int, y: int) -> u32 {
        let bx = (x % 256) as u8;
        let by = (y % 256) as u8;
        let tile = self.vram[self.spec_map_index(bx, by)];
        self.bgp.spec_shade(self.spec_pixel_from_tile(tile, bx, by)).spec_as_real()
    }

    /// The pixel that the screen shows at column `x` of line `line`: the
    /// background, moved by the scroll registers.
    pub open spec fn spec_screen(self, x: int, line: int) -> u32 {
        self.spec_background(self.scx + x, self.scy + line)
    }

    /// The unit after the first `n` pixels of line `line` were drawn.
    pub open spec fn spec_render_upto(self, line: u8, n: nat) -> PPU
        decreases n,
    {
        if n == 0 {
            self
        } else {
            let p = self.spec_render_upto(line, (n - 1) as nat);
            PPU {
                buffer: Box::new(
                    vstd::array::spec_array_update(
                        *p.buffer,
                        line * 160 + (n - 1),
                        self.spec_screen(n - 1, line as int),
                    ),
                ),
                ..p
            }
        }
    }

    /// The unit after line `line` was drawn into the frame buffer.
    pub open spec fn spec_render_line(self, line: u8) -> PPU {
        self.spec_render_upto(line, 160)
    }

    pub fn get_pixel_from_tile(&self, tile: u8, x: u8, y: u8) -> (r: u8)
        ensures
            r == self.spec_pixel_from_tile(tile, x, y),
    {
        let tile_x: u8 = x % 8;
        let tile_y: u8 = y % 8;
        let base: usize = if (self.lcdc & 0x10) != 0 || tile >= 128 {
            (tile as usize) * 16
        } else {
            0x1000 + (tile as usize) * 16
        };
        let offset: usize = base + (tile_y as usize) * 2;
        let data1: u8 = self.vram[offset];
        let data2: u8 = self.vram[offset + 1];
        ((data1 >> (7 - tile_x)) & 1) | (((data2 >> (7 - tile_x)) & 1) << 1)
    }

    fn screen_pixel(&self, x: u8, line: u8) -> (r: u32)
        ensures
            r == self.spec_screen(x as int, line as int),
    {
        let real_x: u8 = self.scx.wrapping_add(x);
        let real_y: u8 = self.scy.wrapping_add(line);
        let map: usize = if (self.lcdc & 0x08) != 0 {
            0x1C00
        } else {
            0x1800
        };
        let tile: u8 = self.vram[map + (real_x as usize) / 8 + ((real_y as usize) / 8) * 32];
        let number: u8 = self.get_pixel_from_tile(tile, real_x, real_y);
        let shade: DmgColor = self.bgp.shade(number);
        shade.as_real()
    }

    fn plot(&mut self, index: usize, pixel: u32)
        requires
            index < 23040,
        ensures
            *final(self) == (PPU {
                buffer: Box::new(
                    vstd::array::spec_array_update(*old(self).buffer, index as int, pixel),
                ),
                ..*old(self)
            }),
    {
        self.buffer[index] = pixel;
    }

    pub fn render_line(&mut self, line: u8)
        requires
            line < 144,
        ensures
            *final(self) == old(self).spec_render_line(line),
    {
        let mut x: u8 = 0;
        while x < 160
            invariant
                x <= 160,
                line < 144,
                *self == old(self).spec_render_upto(line, x as nat),
                self.vram == old(self).vram,
                self.scx == old(self).scx,
                self.scy == old(self).scy,
                self.bgp == old(self).bgp,
                self.lcdc == old(self).lcdc,
            decreases 160 - x,
        {
            let pixel: u32 = self.screen_pixel(x, line);
            self.plot((line as usize) * 160 + (x as usize), pixel);
            x += 1;
        }
    }
}

/// What drawing part of a line leaves behind: the first `n` pixels of the line
/// are those of the screen, the rest of the frame buffer is as before, and
/// nothing but the frame buffer changes.
pub proof fn lemma_render_upto(p: PPU, line: u8, n: nat)
    requires
        line < 144,
        n <= 160,
    ensures
        p.spec_render_upto(line, n) == (PPU { buffer: p.spec_render_upto(line, n).buffer, ..p }),
        forall|i: int|
            0 <= i < 23040 ==> #[trigger] p.spec_render_upto(line, n).buffer[i] == (if line * 160
                <= i < line * 160 + n {
                p.spec_screen(i - line * 160, line as int)
            } else {
                p.buffer[i]
            }),
    decreases n,
{
    if n > 0 {
        lemma_render_upto(p, line, (n - 1) as nat);
    }
}

/// A drawn line holds the 160 pixels of the screen for that line; the other
/// lines of the frame buffer, and everything else in the unit, stay as they were.
pub proof fn lemma_render_line(p: PPU, line: u8)
    requires
        line < 144,
    ensures
        p.spec_render_line(line) == (PPU { buffer: p.spec_render_line(line).buffer, ..p }),
        forall|x: int|
            0 <= x < 160 ==> #[trigger] p.spec_render_line(line).buffer[line * 160 + x]
                == p.spec_screen(x, line as int),
        forall|i: int|
            0 <= i < 23040 && !(line * 160 <= i < line * 160 + 160)
                ==> #[trigger] p.spec_render_line(line).buffer[i] == p.buffer[i],
{
    lemma_render_upto(p, line, 160);
}

/// The background repeats after 256 pixels in both directions, and so does
/// what the screen shows of it.
pub proof fn lemma_background_periodic(p: PPU, x: int, y: int)
    ensures
        p.spec_background(x + 256, y) == p.spec_background(x, y),
        p.spec_background(x, y + 256) == p.spec_background(x, y),
        p.spec_screen(x + 256, y) == p.spec_screen(x, y),
        p.spec_screen(x, y + 256) == p.spec_screen(x, y),
{
    assert((x + 256) % 256 == x % 256);
    assert((y + 256) % 256 == y % 256);
    assert((p.scx + (x + 256)) % 256 == (p.scx + x) % 256);
    assert((p.scy + (y + 256)) % 256 == (p.scy + y) % 256);
}

/// Scrolling by (`dx`, `dy`) shows at (`x`, `y`) what stood at (`x + dx`, `y + dy`).
pub proof fn lemma_scroll_moves_screen(p: PPU, dx: u8, dy: u8, x: int, y: int)
    ensures
        (PPU { scx: p.scx.wrapping_add(dx), scy: p.scy.wrapping_add(dy), ..p }).spec_screen(x, y)
            == p.spec_screen(x + dx, y + dy),
{
    assert((p.scx.wrapping_add(dx) + x) % 256 == (p.scx + (x + dx)) % 256);
    assert((p.scy.wrapping_add(dy) + y) % 256 == (p.scy + (y + dy)) % 256);
}

} // verus!
