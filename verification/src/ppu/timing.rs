use crate::ppu::render::lemma_render_line;
use crate::ppu::{PPUMode, PPU};
use vstd::prelude::*;

verus! {

/// T-states in one frame: 154 lines of 456.
pub const FRAME_CLOCKS: u32 = 70224;

/// T-states of a frame before the vertical blank begins: 144 lines of 456.
pub const VISIBLE_CLOCKS: u32 = 65664;

/// The most T-states that may be spent at once without a mode being missed.
pub const PACE_CLOCKS: u32 = 80;

impl PPU {
    /// T-states since the frame began: 456 for each line that is over, and
    /// the clock of the current line.
    pub open spec fn frame_position(self) -> int {
        self.ly * 456 + self.clock
    }
}

/// With the screen off, time does not pass for the unit.
pub proof fn lemma_spend_screen_off(p: PPU, cycles: u32)
    requires
        !p.enable(),
    ensures
        p.spec_spend(cycles) == p,
{
}

/// Spending time changes neither the memories nor the registers that the
/// processor writes, but for the interrupt requests.
pub proof fn lemma_spend_keeps_registers(p: PPU, cycles: u32)
    requires
        p.wf(),
    ensures
        ({
            let q = p.spec_spend(cycles);
            &&& q.vram == p.vram
            &&& q.oam == p.oam
            &&& q.lcdc == p.lcdc
            &&& q.stat == p.stat
            &&& q.lyc == p.lyc
            &&& q.scx == p.scx
            &&& q.scy == p.scy
            &&& q.wx == p.wx
            &&& q.wy == p.wy
            &&& q.bgp == p.bgp
            &&& q.obp0 == p.obp0
            &&& q.obp1 == p.obp1
        }),
{
    if p.ly < 144 {
        lemma_render_line(PPU { clock: (p.clock + cycles) as u32, ..p }, p.ly);
    }
}

/// The line counter stays within the frame and the vertical blank on its lines.
pub proof fn lemma_spend_keeps_wf(p: PPU, cycles: u32)
    requires
        p.wf(),
    ensures
        p.spec_spend(cycles).wf(),
{
    if p.ly < 144 {
        lemma_render_line(PPU { clock: (p.clock + cycles) as u32, ..p }, p.ly);
    }
}

/// Across a frame the line counter runs 0, 1, ..., 153, 0, 1, ...: a step of
/// time leaves it where it is or moves it to the next line, and the unit is in
/// the vertical blank on exactly the lines 144 to 153.
pub proof fn lemma_line_sequence(p: PPU, cycles: u32)
    requires
        p.wf(),
    ensures
        ({
            let q = p.spec_spend(cycles);
            &&& (q.ly == p.ly || q.ly == (p.ly + 1) % 154)
            &&& (q.mode == PPUMode::VBlank <==> 144 <= q.ly <= 153)
            &&& (q.ly != p.ly ==> p.enable() && p.clock + cycles >= 456)
        }),
{
    if p.ly < 144 {
        lemma_render_line(PPU { clock: (p.clock + cycles) as u32, ..p }, p.ly);
    }
}

/// While no more than 80 T-states are spent at a time, the clock never runs
/// past the end of the mode that the unit is in.
pub proof fn lemma_spend_keeps_pace(p: PPU, cycles: u32)
    requires
        p.wf(),
        p.paced(),
        cycles <= PACE_CLOCKS,
    ensures
        p.spec_spend(cycles).paced(),
{
    if p.ly < 144 {
        lemma_render_line(PPU { clock: (p.clock + cycles) as u32, ..p }, p.ly);
    }
}

/// With the screen on and time spent in steps of no more than 80 T-states,
/// the position within the frame advances by exactly the time spent, modulo
/// the 70224 T-states of a frame. The frame is reported done exactly when the
/// position wraps, and the VBlank interrupt is requested exactly when the
/// position reaches the start of line 144: each once in 70224 T-states.
pub proof fn lemma_frame_position(p: PPU, cycles: u32)
    requires
        p.wf(),
        p.paced(),
        p.enable(),
        cycles <= PACE_CLOCKS,
    ensures
        ({
            let q = p.spec_spend(cycles);
            let wraps = p.frame_position() + cycles >= FRAME_CLOCKS;
            &&& 0 <= p.frame_position() < FRAME_CLOCKS
            &&& q.frame_position() == (if wraps {
                p.frame_position() + cycles - FRAME_CLOCKS
            } else {
                p.frame_position() + cycles
            })
            &&& q.frame_done == (p.frame_done || wraps)
            &&& q.vblank_irq == (p.vblank_irq || (p.frame_position() < VISIBLE_CLOCKS
                <= q.frame_position()))
        }),
{
    if p.ly < 144 {
        lemma_render_line(PPU { clock: (p.clock + cycles) as u32, ..p }, p.ly);
    }
}

} // verus!
