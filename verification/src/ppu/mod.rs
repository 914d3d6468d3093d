use crate::bits::{bit, bit_of};
use crate::ppu::render::lemma_render_line;
use vstd::prelude::*;

pub mod render;
pub mod timing;

verus! {

/// Pixels in one line of the screen.
pub const SCREEN_WIDTH: usize = 160;

/// Lines of the screen.
pub const SCREEN_HEIGHT: usize = 144;

/// Pixels in the frame buffer.
pub const FRAME_PIXELS: usize = 23040;

/// Lines in one frame, the ten lines of the vertical blank included.
pub const FRAME_LINES: u8 = 154;

/// T-states in one line.
pub const LINE_CLOCKS: u32 = 456;

/// T-states of a line after which the OAM scan ends.
pub const SCAN_CLOCKS: u32 = 80;

/// T-states of a line after which drawing ends.
pub const DRAW_CLOCKS: u32 = 310;

/// The four modes of the picture unit within a frame.
#[derive(Clone, Copy, Debug, PartialEq, Eq, Structural)]
pub enum PPUMode {
    HBlank,
    VBlank,
    ReadingOAM,
    Drawing,
}

impl PPUMode {
    /// The number by which the STAT register reports the mode.
    pub open spec fn spec_code(self) -> u8 {
        match self {
            PPUMode::HBlank => 0u8,
            PPUMode::VBlank => 1u8,
            PPUMode::ReadingOAM => 2u8,
            PPUMode::Drawing => 3u8,
        }
    }

    pub fn code(self) -> (r: u8)
        ensures
            r == self.spec_code(),
    {
        match self {
            PPUMode::HBlank => 0,
            PPUMode::VBlank => 1,
            PPUMode::ReadingOAM => 2,
            PPUMode::Drawing => 3,
        }
    }
}

/// The four shades of the screen.
#[derive(Clone, Copy, Debug, PartialEq, Eq, Structural)]
pub enum DmgColor {
    White,
    LightGrey,
    DarkGrey,
    Black,
}

/// A pixel of the frame buffer: red in bits 23 to 16, green in bits 15 to 8,
/// blue in bits 7 to 0, bits 31 to 24 clear.
pub open spec fn pack_rgb(red: u8, green: u8, blue: u8) -> u32 {
    (red * 0x10000 + green * 0x100 + blue) as u32
}

impl DmgColor {
    /// Red, green and blue of the tint that the screen shows for the shade.
    pub open spec fn rgb(self) -> (u8, u8, u8) {
        match self {
            DmgColor::White => (224u8, 248u8, 208u8),
            DmgColor::LightGrey => (136u8, 192u8, 112u8),
            DmgColor::DarkGrey => (52u8, 104u8, 86u8),
            DmgColor::Black => (8u8, 24u8, 32u8),
        }
    }

    /// The pixel that the frame buffer holds for the shade.
    pub open spec fn spec_as_real(self) -> u32 {
        pack_rgb(self.rgb().0, self.rgb().1, self.rgb().2)
    }

    pub fn as_real(self) -> (r: u32)
        ensures
            r == self.spec_as_real(),
    {
        match self {
            DmgColor::White => 0x00E0_F8D0,
            DmgColor::LightGrey => 0x0088_C070,
            DmgColor::DarkGrey => 0x0034_6856,
            DmgColor::Black => 0x0008_1820,
        }
    }

    /// The two-bit number of the shade.
    pub open spec fn spec_index(self) -> u8 {
        match self {
            DmgColor::White => 0u8,
            DmgColor::LightGrey => 1u8,
            DmgColor::DarkGrey => 2u8,
            DmgColor::Black => 3u8,
        }
    }

    pub fn index(self) -> (r: u8)
        ensures
            r == self.spec_index(),
    {
        match self {
            DmgColor::White => 0,
            DmgColor::LightGrey => 1,
            DmgColor::DarkGrey => 2,
            DmgColor::Black => 3,
        }
    }

    /// The shade that the two low bits of `bits` number.
    pub open spec fn spec_from_bits(bits: u8) -> DmgColor {
        let low = bits & 3;
        if low == 0 {
            DmgColor::White
        } else if low == 1 {
            DmgColor::LightGrey
        } else if low == 2 {
            DmgColor::DarkGrey
        } else {
            DmgColor::Black
        }
    }

    pub fn from_bits(bits: u8) -> (r: DmgColor)
        ensures
            r == DmgColor::spec_from_bits(bits),
    {
        let low: u8 = bits & 3;
        if low == 0 {
            DmgColor::White
        } else if low == 1 {
            DmgColor::LightGrey
        } else if low == 2 {
            DmgColor::DarkGrey
        } else {
            DmgColor::Black
        }
    }
}

/// A palette register: the shade for each of the four colour numbers.
#[derive(Clone, Copy, Debug, PartialEq, Eq, Structural)]
pub struct Palette {
    pub c0: DmgColor,
    pub c1: DmgColor,
    pub c2: DmgColor,
    pub c3: DmgColor,
}

impl Palette {
    /// The palette that shows every colour number as white.
    pub open spec fn blank() -> Palette {
        Palette {
            c0: DmgColor::White,
            c1: DmgColor::White,
            c2: DmgColor::White,
            c3: DmgColor::White,
        }
    }

    pub fn new() -> (r: Palette)
        ensures
            r == Palette::blank(),
    {
        Palette {
            c0: DmgColor::White,
            c1: DmgColor::White,
            c2: DmgColor::White,
            c3: DmgColor::White,
        }
    }

    /// The register byte: two bits per colour number, number 0 lowest.
    pub open spec fn spec_get_register(self) -> u8 {
        (self.c3.spec_index() << 6) | (self.c2.spec_index() << 4) | (self.c1.spec_index() << 2)
            | self.c0.spec_index()
    }

    pub fn get_register(&self) -> (r: u8)
        ensures
            r == self.spec_get_register(),
    {
        (self.c3.index() << 6) | (self.c2.index() << 4) | (self.c1.index() << 2) | self.c0.index()
    }

    /// The palette that the register byte `value` describes.
    pub open spec fn spec_from_register(value: u8) -> Palette {
        Palette {
            c0: DmgColor::spec_from_bits(value),
            c1: DmgColor::spec_from_bits(value >> 2),
            c2: DmgColor::spec_from_bits(value >> 4),
            c3: DmgColor::spec_from_bits(value >> 6),
        }
    }

    pub fn from_register(value: u8) -> (r: Palette)
        ensures
            r == Palette::spec_from_register(value),
    {
        Palette {
            c0: DmgColor::from_bits(value),
            c1: DmgColor::from_bits(value >> 2),
            c2: DmgColor::from_bits(value >> 4),
            c3: DmgColor::from_bits(value >> 6),
        }
    }

    pub fn set_register(&mut self, value: u8)
        ensures
            *final(self) == Palette::spec_from_register(value),
    {
        self.c0 = DmgColor::from_bits(value);
        self.c1 = DmgColor::from_bits(value >> 2);
        self.c2 = DmgColor::from_bits(value >> 4);
        self.c3 = DmgColor::from_bits(value >> 6);
    }

    /// The shade of a colour number; numbers above 3 count as 3.
    pub open spec fn spec_shade(self, number: u8) -> DmgColor {
        if number == 0 {
            self.c0
        } else if number == 1 {
            self.c1
        } else if number == 2 {
            self.c2
        } else {
            self.c3
        }
    }

    pub fn shade(&self, number: u8) -> (r: DmgColor)
        ensures
            r == self.spec_shade(number),
    {
        if number == 0 {
            self.c0
        } else if number == 1 {
            self.c1
        } else if number == 2 {
            self.c2
        } else {
            self.c3
        }
    }
}

proof fn lemma_index_of_bits(bits: u8)
    ensures
        DmgColor::spec_from_bits(bits).spec_index() == bits & 3,
{
    assert(bits & 3 <= 3) by (bit_vector);
}

proof fn lemma_pack_fields(value: u8)
    by (bit_vector)
    ensures
        (((value >> 6) & 3) << 6) | (((value >> 4) & 3) << 4) | (((value >> 2) & 3) << 2) | (value
            & 3) == value,
{
}

/// A palette register reads back the byte that was written to it.
pub proof fn lemma_palette_round_trip(value: u8)
    ensures
        Palette::spec_from_register(value).spec_get_register() == value,
{
    lemma_index_of_bits(value);
    lemma_index_of_bits(value >> 2);
    lemma_index_of_bits(value >> 4);
    lemma_index_of_bits(value >> 6);
    lemma_pack_fields(value);
}

impl Default for Palette {
    fn default() -> (r: Palette)
        ensures
            r == Palette::blank(),
    {
        Palette::new()
    }
}

/// The state of the picture unit.
///
/// `lcdc` holds the LCDC register as written. `stat` holds the four interrupt
/// enables of the STAT register, bits 6 to 3, and nothing else.
#[derive(Debug)]
pub struct PPU {
    pub vram: [u8; 0x2000],
    pub oam: [u8; 0xA0],
    pub buffer: Box<[u32; 23040]>,
    pub mode: PPUMode,
    pub frame_done: bool,
    pub clock: u32,
    pub ly: u8,
    pub wx: u8,
    pub wy: u8,
    pub lcdc: u8,
    pub stat: u8,
    pub lyc: u8,
    pub scy: u8,
    pub scx: u8,
    pub bgp: Palette,
    pub obp0: Palette,
    pub obp1: Palette,
    // Interrupt requests
    pub vblank_irq: bool,
    pub stat_irq: bool,
}

impl PPU {
    /// LCDC bit 7: the screen and the unit are switched on.
    pub open spec fn enable(self) -> bool {
        self.lcdc & 0x80 != 0
    }

    /// LCDC bit 6: the window takes its tiles from the map at 0x9C00.
    pub open spec fn window_map(self) -> bool {
        self.lcdc & 0x40 != 0
    }

    /// LCDC bit 5: the window is shown.
    pub open spec fn window_enable(self) -> bool {
        self.lcdc & 0x20 != 0
    }

    /// LCDC bit 4: tile numbers count upwards from 0x8000.
    pub open spec fn tile_data(self) -> bool {
        self.lcdc & 0x10 != 0
    }

    /// LCDC bit 3: the background takes its tiles from the map at 0x9C00.
    pub open spec fn bg_map(self) -> bool {
        self.lcdc & 0x08 != 0
    }

    /// LCDC bit 2: objects are 16 lines high.
    pub open spec fn obj_size(self) -> bool {
        self.lcdc & 0x04 != 0
    }

    /// LCDC bit 1: objects are shown.
    pub open spec fn obj_enable(self) -> bool {
        self.lcdc & 0x02 != 0
    }

    /// LCDC bit 0: background and window are shown.
    pub open spec fn bg_window_enable(self) -> bool {
        self.lcdc & 0x01 != 0
    }

    /// STAT bit 6: a line that equals LYC requests the STAT interrupt.
    pub open spec fn coincidence_irq(self) -> bool {
        self.stat & 0x40 != 0
    }

    /// STAT bit 5: the start of an OAM scan requests the STAT interrupt.
    pub open spec fn mode2_irq(self) -> bool {
        self.stat & 0x20 != 0
    }

    /// STAT bit 4: the start of the vertical blank requests the STAT interrupt.
    pub open spec fn mode1_irq(self) -> bool {
        self.stat & 0x10 != 0
    }

    /// STAT bit 3: the start of a horizontal blank requests the STAT interrupt.
    pub open spec fn mode0_irq(self) -> bool {
        self.stat & 0x08 != 0
    }

    /// Where the unit stands in the frame: mode, clock, line, and whether a
    /// frame is reported done. Only time moves it, and the report is only
    /// withdrawn by `ack_frame_done`.
    pub open spec fn timing(self) -> (PPUMode, u32, u8, bool) {
        (self.mode, self.clock, self.ly, self.frame_done)
    }

    /// The line counter stays within a frame, and the unit is in the vertical
    /// blank on exactly the lines 144 to 153.
    pub open spec fn wf(self) -> bool {
        &&& self.ly < FRAME_LINES
        &&& (self.mode == PPUMode::VBlank <==> self.ly >= 144)
    }

    /// The clock has not run past the end of the current mode: what holds
    /// while no more than 80 T-states are spent at a time.
    pub open spec fn paced(self) -> bool {
        match self.mode {
            PPUMode::ReadingOAM => self.clock < SCAN_CLOCKS,
            PPUMode::Drawing => self.clock < DRAW_CLOCKS,
            PPUMode::HBlank => self.clock < LINE_CLOCKS,
            PPUMode::VBlank => self.clock < LINE_CLOCKS,
        }
    }

    pub fn is_well_formed(&self) -> (r: bool)
        ensures
            r == self.wf(),
    {
        let blank: bool = match self.mode {
            PPUMode::VBlank => true,
            _ => false,
        };
        self.ly < FRAME_LINES && blank == (self.ly >= 144)
    }

    pub fn is_paced(&self) -> (r: bool)
        ensures
            r == self.paced(),
    {
        match self.mode {
            PPUMode::ReadingOAM => self.clock < SCAN_CLOCKS,
            PPUMode::Drawing => self.clock < DRAW_CLOCKS,
            PPUMode::HBlank => self.clock < LINE_CLOCKS,
            PPUMode::VBlank => self.clock < LINE_CLOCKS,
        }
    }

    /// The unit at reset: memory and frame buffer cleared, every register 0,
    /// the screen off, at the start of line 0.
    pub open spec fn is_reset(self) -> bool {
        &&& forall|i: int| 0 <= i < 0x2000 ==> self.vram[i] == 0
        &&& forall|i: int| 0 <= i < 0xA0 ==> self.oam[i] == 0
        &&& forall|i: int| 0 <= i < FRAME_PIXELS ==> self.buffer[i] == 0
        &&& self.mode == PPUMode::ReadingOAM
        &&& !self.frame_done
        &&& self.clock == 0
        &&& self.ly == 0
        &&& self.wx == 0
        &&& self.wy == 0
        &&& self.lcdc == 0
        &&& self.stat == 0
        &&& self.lyc == 0
        &&& self.scy == 0
        &&& self.scx == 0
        &&& self.bgp == Palette::blank()
        &&& self.obp0 == Palette::blank()
        &&& self.obp1 == Palette::blank()
        &&& !self.vblank_irq
        &&& !self.stat_irq
    }

    pub fn new() -> (r: PPU)
        ensures
            r.is_reset(),
            r.wf(),
            r.paced(),
    {
        PPU {
            vram: [0u8;0x2000],
            oam: [0u8;0xA0],
            buffer: Box::new([0u32;23040]),
            mode: PPUMode::ReadingOAM,
            frame_done: false,
            clock: 0,
            ly: 0,
            wx: 0,
            wy: 0,
            lcdc: 0,
            stat: 0,
            lyc: 0,
            scy: 0,
            scx: 0,
            bgp: Palette::new(),
            obp0: Palette::new(),
            obp1: Palette::new(),
            vblank_irq: false,
            stat_irq: false,
        }
    }

    pub fn is_frame_done(&self) -> (r: bool)
        ensures
            r == self.frame_done,
    {
        self.frame_done
    }

    pub fn ack_frame_done(&mut self)
        ensures
            *final(self) == (PPU { frame_done: false, ..*old(self) }),
    {
        self.frame_done = false;
    }

    pub fn has_vblank_irq(&self) -> (r: bool)
        ensures
            r == self.vblank_irq,
    {
        self.vblank_irq
    }

    pub fn ack_vblank_irq(&mut self)
        ensures
            *final(self) == (PPU { vblank_irq: false, ..*old(self) }),
    {
        self.vblank_irq = false;
    }

    pub fn set_vblank_irq(&mut self, value: bool)
        ensures
            *final(self) == (PPU { vblank_irq: value, ..*old(self) }),
    {
        self.vblank_irq = value;
    }

    pub fn has_stat_irq(&self) -> (r: bool)
        ensures
            r == self.stat_irq,
    {
        self.stat_irq
    }

    pub fn ack_stat_irq(&mut self)
        ensures
            *final(self) == (PPU { stat_irq: false, ..*old(self) }),
    {
        self.stat_irq = false;
    }

    pub fn set_stat_irq(&mut self, value: bool)
        ensures
            *final(self) == (PPU { stat_irq: value, ..*old(self) }),
    {
        self.stat_irq = value;
    }

    /// The STAT register as it reads: the four interrupt enables as written,
    /// the coincidence flag in bit 2 and the mode in bits 1 and 0 as they are now.
    pub open spec fn spec_stat(self) -> u8 {
        self.stat | (bit(self.ly == self.lyc) << 2) | self.mode.spec_code()
    }

    /// The byte that a read of the register at `addr` yields. LY reads as the
    /// current line; an address that holds no readable register reads 0xFF.
    pub open spec fn spec_read_io(self, addr: u16) -> u8 {
        if addr == 0xFF40 {
            self.lcdc
        } else if addr == 0xFF41 {
            self.spec_stat()
        } else if addr == 0xFF42 {
            self.scy
        } else if addr == 0xFF43 {
            self.scx
        } else if addr == 0xFF44 {
            self.ly
        } else if addr == 0xFF45 {
            self.lyc
        } else if addr == 0xFF47 {
            self.bgp.spec_get_register()
        } else if addr == 0xFF48 {
            self.obp0.spec_get_register()
        } else if addr == 0xFF49 {
            self.obp1.spec_get_register()
        } else if addr == 0xFF4A {
            self.wy
        } else if addr == 0xFF4B {
            self.wx
        } else {
            0xFFu8
        }
    }

    pub fn read_io_register(&self, addr: u16) -> (r: u8)
        ensures
            r == self.spec_read_io(addr),
    {
        match addr {
            0xFF40 => self.lcdc,
            0xFF41 => self.stat | (bit_of(self.ly == self.lyc) << 2) | self.mode.code(),
            0xFF42 => self.scy,
            0xFF43 => self.scx,
            0xFF44 => self.ly,
            0xFF45 => self.lyc,
            0xFF47 => self.bgp.get_register(),
            0xFF48 => self.obp0.get_register(),
            0xFF49 => self.obp1.get_register(),
            0xFF4A => self.wy,
            0xFF4B => self.wx,
            _ => 0xFF,
        }
    }

    /// The unit after a write of `value` to the register at `addr`. Of a write
    /// to STAT the four interrupt enables are kept; LY cannot be written, and a
    /// write to an address that holds no register of the unit changes nothing.
    pub open spec fn spec_write_io(self, addr: u16, value: u8) -> PPU {
        if addr == 0xFF40 {
            PPU { lcdc: value, ..self }
        } else if addr == 0xFF41 {
            PPU { stat: value & 0x78, ..self }
        } else if addr == 0xFF42 {
            PPU { scy: value, ..self }
        } else if addr == 0xFF43 {
            PPU { scx: value, ..self }
        } else if addr == 0xFF45 {
            PPU { lyc: value, ..self }
        } else if addr == 0xFF47 {
            PPU { bgp: Palette::spec_from_register(value), ..self }
        } else if addr == 0xFF48 {
            PPU { obp0: Palette::spec_from_register(value), ..self }
        } else if addr == 0xFF49 {
            PPU { obp1: Palette::spec_from_register(value), ..self }
        } else if addr == 0xFF4A {
            PPU { wy: value, ..self }
        } else if addr == 0xFF4B {
            PPU { wx: value, ..self }
        } else {
            self
        }
    }

    pub fn write_io_register(&mut self, addr: u16, value: u8)
        ensures
            *final(self) == old(self).spec_write_io(addr, value),
    {
        match addr {
            0xFF40 => self.lcdc = value,
            0xFF41 => self.stat = value & 0x78,
            0xFF42 => self.scy = value,
            0xFF43 => self.scx = value,
            0xFF45 => self.lyc = value,
            0xFF47 => self.bgp = Palette::from_register(value),
            0xFF48 => self.obp0 = Palette::from_register(value),
            0xFF49 => self.obp1 = Palette::from_register(value),
            0xFF4A => self.wy = value,
            0xFF4B => self.wx = value,
            _ => {},
        }
    }

    /// The unit with the byte of video memory at bus address `addr` replaced.
    pub open spec fn spec_write_vram(self, addr: u16, value: u8) -> PPU {
        PPU { vram: vstd::array::spec_array_update(self.vram, addr - 0x8000, value), ..self }
    }

    pub fn write_vram_u8(&mut self, addr: u16, value: u8)
        requires
            0x8000 <= addr < 0xA000,
        ensures
            *final(self) == old(self).spec_write_vram(addr, value),
    {
        self.vram[(addr - 0x8000) as usize] = value;
    }

    pub fn read_vram_u8(&self, addr: u16) -> (r: u8)
        requires
            0x8000 <= addr < 0xA000,
        ensures
            r == self.vram[addr - 0x8000],
    {
        self.vram[(addr - 0x8000) as usize]
    }

    /// The unit with the byte of object memory at bus address `addr` replaced.
    pub open spec fn spec_write_oam(self, addr: u16, value: u8) -> PPU {
        PPU { oam: vstd::array::spec_array_update(self.oam, addr - 0xFE00, value), ..self }
    }

    pub fn write_oam_u8(&mut self, addr: u16, value: u8)
        requires
            0xFE00 <= addr < 0xFEA0,
        ensures
            *final(self) == old(self).spec_write_oam(addr, value),
    {
        self.oam[(addr - 0xFE00) as usize] = value;
    }

    pub fn read_oam_u8(&self, addr: u16) -> (r: u8)
        requires
            0xFE00 <= addr < 0xFEA0,
        ensures
            r == self.oam[addr - 0xFE00],
    {
        self.oam[(addr - 0xFE00) as usize]
    }

    /// The unit after the line counter moved on by one line, past line 153
    /// back to line 0. A line that equals LYC requests the STAT interrupt
    /// if the coincidence source is enabled; nothing else ever does so for
    /// a coincidence.
    pub open spec fn spec_increment_line(self) -> PPU {
        let ly = ((self.ly + 1) % (FRAME_LINES as int)) as u8;
        PPU {
            ly,
            stat_irq: self.stat_irq || (self.coincidence_irq() && ly == self.lyc),
            ..self
        }
    }

    /// The unit after a horizontal blank ended: the line is drawn into the
    /// frame buffer and the next line begins, 456 T-states later. Line 144
    /// begins the vertical blank, which requests the VBlank interrupt and, if
    /// enabled, the STAT interrupt for mode 1.
    pub open spec fn spec_end_line(self) -> PPU {
        let p = self.spec_render_line(self.ly).spec_increment_line();
        if p.ly == 144 {
            PPU {
                clock: (self.clock - LINE_CLOCKS) as u32,
                mode: PPUMode::VBlank,
                vblank_irq: true,
                stat_irq: p.stat_irq || self.mode1_irq(),
                ..p
            }
        } else {
            PPU { clock: (self.clock - LINE_CLOCKS) as u32, mode: PPUMode::ReadingOAM, ..p }
        }
    }

    /// The unit after a line of the vertical blank ended. When the line
    /// counter returns to 0 the frame is done and the first OAM scan of the
    /// next frame begins, which requests the STAT interrupt for mode 2 if enabled.
    pub open spec fn spec_end_blank_line(self) -> PPU {
        let p = self.spec_increment_line();
        if p.ly == 0 {
            PPU {
                clock: (self.clock - LINE_CLOCKS) as u32,
                mode: PPUMode::ReadingOAM,
                frame_done: true,
                stat_irq: p.stat_irq || self.mode2_irq(),
                ..p
            }
        } else {
            PPU { clock: (self.clock - LINE_CLOCKS) as u32, ..p }
        }
    }

    /// The unit after `cycles` T-states. With the screen off nothing moves.
    /// Otherwise the clock advances, and the mode changes at most once: from
    /// the OAM scan to drawing at 80 T-states of the line, from drawing to the
    /// horizontal blank at 310, which requests the STAT interrupt for mode 0
    /// if enabled, and out of either blank at 456.
    pub open spec fn spec_spend(self, cycles: u32) -> PPU {
        if !self.enable() {
            self
        } else {
            let p = PPU { clock: (self.clock + cycles) as u32, ..self };
            match self.mode {
                PPUMode::HBlank => if p.clock >= LINE_CLOCKS {
                    p.spec_end_line()
                } else {
                    p
                },
                PPUMode::VBlank => if p.clock >= LINE_CLOCKS {
                    p.spec_end_blank_line()
                } else {
                    p
                },
                PPUMode::ReadingOAM => if p.clock >= SCAN_CLOCKS {
                    PPU { mode: PPUMode::Drawing, ..p }
                } else {
                    p
                },
                PPUMode::Drawing => if p.clock >= DRAW_CLOCKS {
                    PPU { mode: PPUMode::HBlank, stat_irq: p.stat_irq || p.mode0_irq(), ..p }
                } else {
                    p
                },
            }
        }
    }

    pub fn increment_line(&mut self)
        requires
            old(self).ly < FRAME_LINES,
        ensures
            *final(self) == old(self).spec_increment_line(),
    {
        self.ly = (self.ly + 1) % FRAME_LINES;
        if (self.stat & 0x40) != 0 && self.ly == self.lyc {
            self.stat_irq = true;
        }
    }

    fn end_line(&mut self)
        requires
            old(self).wf(),
            old(self).mode == PPUMode::HBlank,
            old(self).clock >= LINE_CLOCKS,
        ensures
            *final(self) == old(self).spec_end_line(),
    {
        proof {
            lemma_render_line(*self, self.ly);
        }
        self.render_line(self.ly);
        self.increment_line();
        self.clock -= LINE_CLOCKS;
        if self.ly == 144 {
            self.mode = PPUMode::VBlank;
            self.vblank_irq = true;
            if (self.stat & 0x10) != 0 {
                self.stat_irq = true;
            }
        } else {
            self.mode = PPUMode::ReadingOAM;
        }
    }

    fn end_blank_line(&mut self)
        requires
            old(self).wf(),
            old(self).clock >= LINE_CLOCKS,
        ensures
            *final(self) == old(self).spec_end_blank_line(),
    {
        self.increment_line();
        self.clock -= LINE_CLOCKS;
        if self.ly == 0 {
            self.frame_done = true;
            self.mode = PPUMode::ReadingOAM;
            if (self.stat & 0x20) != 0 {
                self.stat_irq = true;
            }
        }
    }

    pub fn spend(&mut self, cycles: u32)
        requires
            old(self).wf(),
            old(self).clock + cycles <= u32::MAX,
        ensures
            *final(self) == old(self).spec_spend(cycles),
    {
        if (self.lcdc & 0x80) == 0 {
            return ;
        }
        self.clock += cycles;
        match self.mode {
            PPUMode::HBlank => {
                if self.clock >= LINE_CLOCKS {
                    self.end_line();
                }
            },
            PPUMode::VBlank => {
                if self.clock >= LINE_CLOCKS {
                    self.end_blank_line();
                }
            },
            PPUMode::ReadingOAM => {
                if self.clock >= SCAN_CLOCKS {
                    self.mode = PPUMode::Drawing;
                }
            },
            PPUMode::Drawing => {
                if self.clock >= DRAW_CLOCKS {
                    self.mode = PPUMode::HBlank;
                    if (self.stat & 0x08) != 0 {
                        self.stat_irq = true;
                    }
                }
            },
        }
    }
}

impl Default for PPU {
    fn default() -> (r: PPU)
        ensures
            r.is_reset(),
            r.wf(),
            r.paced(),
    {
        PPU::new()
    }
}

} // verus!
