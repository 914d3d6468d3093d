use crate::apu::Apu;
use crate::bits::{bit, bit_of};
use crate::cartridge::Cartridge;
use crate::error::GbError;
use crate::joypad::Joypad;
use crate::ppu::timing::{lemma_spend_keeps_pace, lemma_spend_keeps_wf};
use crate::ppu::PPU;
use vstd::prelude::*;

verus! {

/// Bytes in the boot ROM.
pub const BIOS_SIZE: usize = 0x100;

/// First address of object memory, where a DMA transfer starts to write.
pub const OAM_START: u16 = 0xFE00;

/// First address behind object memory, where a DMA transfer ends.
pub const OAM_END: u16 = 0xFEA0;

/// The memory bus: every memory and device that the processor can address,
/// the machine cycles that the processor has charged and not yet spent, and
/// the state of the DMA transfer into object memory.
#[derive(Debug)]
pub struct Bus {
    pub bios: [u8; 0x100],
    pub cart: Cartridge,
    pub ppu: PPU,
    pub apu: Apu,
    pub joypad: Joypad,
    pub wram: [u8; 0x2000],
    pub hram: [u8; 0x80],
    pub cycles_to_spend: u32,
    pub bios_enable: bool,
    // Interrupt enables
    pub enable_vblank_irq: bool,
    pub enable_stat_irq: bool,
    // DMA
    pub dma_ongoing: bool,
    pub dma_src: u16,
    pub dma_dst: u16,
}

/// Two interrupt lines as a register shows them: VBlank in bit 0, STAT in bit 1.
pub open spec fn irq_bits(vblank: bool, stat: bool) -> u8 {
    bit(vblank) | (bit(stat) << 1)
}

impl Bus {
    /// The picture unit is well formed, and a transfer that is under way
    /// writes next inside object memory.
    pub open spec fn wf(self) -> bool {
        &&& self.ppu.wf()
        &&& (self.dma_ongoing ==> OAM_START <= self.dma_dst < OAM_END)
    }

    /// What no write changes: the cycles to spend and where the picture unit
    /// stands in the frame; and a well-formed bus stays well formed.
    pub open spec fn keeps(self, before: Bus) -> bool {
        &&& self.cycles_to_spend == before.cycles_to_spend
        &&& self.ppu.timing() == before.ppu.timing()
        &&& (before.wf() ==> self.wf())
    }

    pub fn is_well_formed(&self) -> (r: bool)
        ensures
            r == self.wf(),
    {
        self.ppu.is_well_formed() && (!self.dma_ongoing || (OAM_START <= self.dma_dst
            && self.dma_dst < OAM_END))
    }

    /// The bus at reset: memories cleared, no cartridge, the boot ROM mapped,
    /// no interrupt enabled, nothing to spend and no transfer under way.
    pub open spec fn is_reset(self) -> bool {
        &&& forall|i: int| 0 <= i < 0x100 ==> self.bios[i] == 0
        &&& forall|i: int| 0 <= i < 0x2000 ==> self.wram[i] == 0
        &&& forall|i: int| 0 <= i < 0x80 ==> self.hram[i] == 0
        &&& self.cart.rom@ == Seq::<u8>::empty()
        &&& self.ppu.is_reset()
        &&& self.joypad == Joypad::released()
        &&& self.cycles_to_spend == 0
        &&& self.bios_enable
        &&& !self.enable_vblank_irq
        &&& !self.enable_stat_irq
        &&& !self.dma_ongoing
        &&& self.dma_src == 0
        &&& self.dma_dst == OAM_START
    }

    pub fn new() -> (r: Bus)
        ensures
            r.is_reset(),
            r.wf(),
            r.ppu.paced(),
    {
        Bus {
            bios: [0u8;0x100],
            cart: Cartridge::new(),
            ppu: PPU::new(),
            apu: Apu::new(),
            joypad: Joypad::new(),
            wram: [0u8;0x2000],
            hram: [0u8;0x80],
            cycles_to_spend: 0,
            bios_enable: true,
            enable_vblank_irq: false,
            enable_stat_irq: false,
            dma_ongoing: false,
            dma_src: 0,
            dma_dst: OAM_START,
        }
    }

    pub fn is_frame_done(&self) -> (r: bool)
        ensures
            r == self.ppu.frame_done,
    {
        self.ppu.is_frame_done()
    }

    pub fn ack_frame_done(&mut self)
        ensures
            *final(self) == (Bus { ppu: PPU { frame_done: false, ..old(self).ppu }, ..*old(self) }),
    {
        self.ppu.ack_frame_done();
    }

    /// The frame buffer: 144 lines of 160 pixels, the top line first.
    pub fn frame_buffer(&self) -> (r: &[u32; 23040])
        ensures
            *r == *self.ppu.buffer,
    {
        &*self.ppu.buffer
    }

    /// The vector of the interrupt to serve next: VBlank before STAT, each
    /// only if it is both requested and enabled.
    pub open spec fn spec_irq(self) -> Option<u16> {
        if self.ppu.vblank_irq && self.enable_vblank_irq {
            Some(0x40u16)
        } else if self.ppu.stat_irq && self.enable_stat_irq {
            Some(0x48u16)
        } else {
            None
        }
    }

    pub fn has_irq(&self) -> (r: Option<u16>)
        ensures
            r == self.spec_irq(),
    {
        if self.ppu.has_vblank_irq() && self.enable_vblank_irq {
            Some(0x40)
        } else if self.ppu.has_stat_irq() && self.enable_stat_irq {
            Some(0x48)
        } else {
            None
        }
    }

    /// The bus after the interrupt that `spec_irq` names was taken: its
    /// request is withdrawn.
    pub open spec fn spec_ack_irq(self) -> Bus {
        if self.ppu.vblank_irq && self.enable_vblank_irq {
            Bus { ppu: PPU { vblank_irq: false, ..self.ppu }, ..self }
        } else if self.ppu.stat_irq && self.enable_stat_irq {
            Bus { ppu: PPU { stat_irq: false, ..self.ppu }, ..self }
        } else {
            self
        }
    }

    pub fn ack_irq(&mut self)
        ensures
            *final(self) == old(self).spec_ack_irq(),
            final(self).keeps(*old(self)),
    {
        if self.ppu.has_vblank_irq() && self.enable_vblank_irq {
            self.ppu.ack_vblank_irq()
        } else if self.ppu.has_stat_irq() && self.enable_stat_irq {
            self.ppu.ack_stat_irq()
        }
    }

    /// Whether an image can serve as boot ROM: it holds at least 256 bytes.
    pub open spec fn accepts_bios(image: Seq<u8>) -> bool {
        image.len() >= BIOS_SIZE
    }

    /// Takes the first 256 bytes of `image` as the boot ROM, or refuses an
    /// image that is shorter and keeps the present one.
    pub fn load_bios(&mut self, image: &[u8]) -> (r: Result<(), GbError>)
        ensures
            Bus::accepts_bios(image@) ==> r is Ok && final(self).bios@ == image@.subrange(
                0,
                BIOS_SIZE as int,
            ) && *final(self) == (Bus { bios: final(self).bios, ..*old(self) }),
            !Bus::accepts_bios(image@) ==> r == Err::<(), GbError>(GbError::BiosShort)
                && *final(self) == *old(self),
    {
        if image.len() < BIOS_SIZE {
            return Err(GbError::BiosShort);
        }
        let mut i: usize = 0;
        while i < BIOS_SIZE
            invariant
                i <= BIOS_SIZE,
                image@.len() >= BIOS_SIZE,
                *self == (Bus { bios: self.bios, ..*old(self) }),
                forall|j: int| 0 <= j < i ==> self.bios[j] == image@[j],
            decreases BIOS_SIZE - i,
        {
            self.bios[i] = image[i];
            i += 1;
        }
        assert(self.bios@ =~= image@.subrange(0, BIOS_SIZE as int));
        Ok(())
    }

    /// Puts `image` into the cartridge slot, or refuses it and keeps what is there.
    pub fn load_rom(&mut self, image: Vec<u8>) -> (r: Result<(), GbError>)
        ensures
            crate::cartridge::accepts(image@) ==> r is Ok && final(self).cart.rom@ == image@
                && *final(self) == (Bus { cart: final(self).cart, ..*old(self) }),
            !crate::cartridge::accepts(image@) ==> r == Err::<(), GbError>(
                GbError::UnsupportedMapper,
            ) && *final(self) == *old(self),
    {
        self.cart.load_bytes(image)
    }

    /// The bus with `cycles` machine cycles more to spend.
    pub open spec fn spec_delay(self, cycles: u32) -> Bus {
        Bus { cycles_to_spend: (self.cycles_to_spend + cycles) as u32, ..self }
    }

    pub fn delay(&mut self, cycles: u32)
        requires
            old(self).cycles_to_spend + cycles <= u32::MAX,
        ensures
            *final(self) == old(self).spec_delay(cycles),
    {
        self.cycles_to_spend += cycles;
    }

    /// The byte that a read at `addr` yields. The boot ROM covers the first
    /// 256 bytes of the cartridge while it is mapped. An address that nothing
    /// stands behind reads 0xFF: one past the end of the cartridge image,
    /// cartridge RAM, the unusable page, and an input-output register that
    /// cannot be read.
    pub open spec fn spec_read(self, addr: u16) -> u8 {
        if addr < 0x100 && self.bios_enable {
            self.bios[addr as int]
        } else if addr < 0x8000 {
            if addr < self.cart.rom@.len() {
                self.cart.rom@[addr as int]
            } else {
                0xFFu8
            }
        } else if addr < 0xA000 {
            self.ppu.vram[addr - 0x8000]
        } else if addr < 0xC000 {
            0xFFu8
        } else if addr < 0xE000 {
            self.wram[addr - 0xC000]
        } else if addr < 0xFE00 {
            self.wram[addr - 0xE000]
        } else if addr < 0xFEA0 {
            self.ppu.oam[addr - 0xFE00]
        } else if addr < 0xFF00 {
            0xFFu8
        } else if addr == 0xFF00 {
            self.joypad.spec_read()
        } else if addr == 0xFF0F {
            irq_bits(self.ppu.vblank_irq, self.ppu.stat_irq)
        } else if 0xFF40 <= addr <= 0xFF4B {
            self.ppu.spec_read_io(addr)
        } else if 0xFF80 <= addr < 0xFFFF {
            self.hram[addr - 0xFF80]
        } else if addr == 0xFFFF {
            irq_bits(self.enable_vblank_irq, self.enable_stat_irq)
        } else {
            0xFFu8
        }
    }

    pub fn read_u8(&self, addr: u16) -> (r: u8)
        ensures
            r == self.spec_read(addr),
    {
        if addr < 0x100 && self.bios_enable {
            self.bios[addr as usize]
        } else if addr < 0x8000 {
            if (addr as usize) < self.cart.len() {
                self.cart.read_rom_u8(addr)
            } else {
                0xFF
            }
        } else if addr < 0xA000 {
            self.ppu.read_vram_u8(addr)
        } else if addr < 0xC000 {
            0xFF
        } else if addr < 0xE000 {
            self.wram[(addr - 0xC000) as usize]
        } else if addr < 0xFE00 {
            self.wram[(addr - 0xE000) as usize]
        } else if addr < 0xFEA0 {
            self.ppu.read_oam_u8(addr)
        } else if addr < 0xFF00 {
            0xFF
        } else if addr == 0xFF00 {
            self.joypad.read()
        } else if addr == 0xFF0F {
            bit_of(self.ppu.has_vblank_irq()) | (bit_of(self.ppu.has_stat_irq()) << 1)
        } else if 0xFF40 <= addr && addr <= 0xFF4B {
            self.ppu.read_io_register(addr)
        } else if 0xFF80 <= addr && addr < 0xFFFF {
            self.hram[(addr - 0xFF80) as usize]
        } else if addr == 0xFFFF {
            bit_of(self.enable_vblank_irq) | (bit_of(self.enable_stat_irq) << 1)
        } else {
            0xFF
        }
    }

    /// The bus after a write of `value` at `addr`. Writes to the cartridge, to
    /// the unusable page, to the serial, timer and sound registers and to an
    /// address that nothing stands behind are dropped. A write to 0xFF46
    /// starts a DMA transfer from page `value`; a write to 0xFF50 unmaps the
    /// boot ROM for good.
    #[verifier::opaque]
    pub open spec fn spec_write(self, addr: u16, value: u8) -> Bus {
        if addr < 0x8000 {
            self
        } else if addr < 0xA000 {
            Bus { ppu: self.ppu.spec_write_vram(addr, value), ..self }
        } else if addr < 0xC000 {
            self
        } else if addr < 0xE000 {
            Bus { wram: vstd::array::spec_array_update(self.wram, addr - 0xC000, value), ..self }
        } else if addr < 0xFE00 {
            Bus { wram: vstd::array::spec_array_update(self.wram, addr - 0xE000, value), ..self }
        } else if addr < 0xFEA0 {
            Bus { ppu: self.ppu.spec_write_oam(addr, value), ..self }
        } else if addr < 0xFF00 {
            self
        } else if addr == 0xFF00 {
            Bus { joypad: Joypad { mode: (value & 0x20) != 0, ..self.joypad }, ..self }
        } else if addr == 0xFF0F {
            Bus {
                ppu: PPU {
                    vblank_irq: (value & 0x01) != 0,
                    stat_irq: (value & 0x02) != 0,
                    ..self.ppu
                },
                ..self
            }
        } else if addr == 0xFF46 {
            Bus {
                dma_ongoing: true,
                dma_src: (value * 0x100) as u16,
                dma_dst: OAM_START,
                ..self
            }
        } else if 0xFF40 <= addr <= 0xFF4B {
            Bus { ppu: self.ppu.spec_write_io(addr, value), ..self }
        } else if addr == 0xFF50 {
            Bus { bios_enable: false, ..self }
        } else if 0xFF80 <= addr < 0xFFFF {
            Bus { hram: vstd::array::spec_array_update(self.hram, addr - 0xFF80, value), ..self }
        } else if addr == 0xFFFF {
            Bus {
                enable_vblank_irq: (value & 0x01) != 0,
                enable_stat_irq: (value & 0x02) != 0,
                ..self
            }
        } else {
            self
        }
    }

    fn write_vram(&mut self, addr: u16, value: u8)
        requires
            0x8000 <= addr < 0xA000,
        ensures
            *final(self) == old(self).spec_write(addr, value),
    {
        reveal(Bus::spec_write);
        self.ppu.write_vram_u8(addr, value);
    }

    fn write_wram(&mut self, addr: u16, value: u8)
        requires
            0xC000 <= addr < 0xFE00,
        ensures
            *final(self) == old(self).spec_write(addr, value),
    {
        reveal(Bus::spec_write);
        if addr < 0xE000 {
            self.wram[(addr - 0xC000) as usize] = value;
        } else {
            self.wram[(addr - 0xE000) as usize] = value;
        }
    }

    fn write_oam(&mut self, addr: u16, value: u8)
        requires
            0xFE00 <= addr < 0xFEA0,
        ensures
            *final(self) == old(self).spec_write(addr, value),
    {
        reveal(Bus::spec_write);
        self.ppu.write_oam_u8(addr, value);
    }

    fn write_joypad(&mut self, value: u8)
        ensures
            *final(self) == old(self).spec_write(0xFF00, value),
    {
        reveal(Bus::spec_write);
        self.joypad.write(value);
    }

    fn write_requests(&mut self, value: u8)
        ensures
            *final(self) == old(self).spec_write(0xFF0F, value),
    {
        reveal(Bus::spec_write);
        self.ppu.set_vblank_irq((value & 0x01) != 0);
        self.ppu.set_stat_irq((value & 0x02) != 0);
    }

    fn start_dma(&mut self, value: u8)
        ensures
            *final(self) == old(self).spec_write(0xFF46, value),
    {
        reveal(Bus::spec_write);
        self.dma_ongoing = true;
        self.dma_src = (value as u16) * 0x100;
        self.dma_dst = OAM_START;
    }

    fn write_ppu_register(&mut self, addr: u16, value: u8)
        requires
            0xFF40 <= addr <= 0xFF4B,
            addr != 0xFF46,
        ensures
            *final(self) == old(self).spec_write(addr, value),
    {
        reveal(Bus::spec_write);
        self.ppu.write_io_register(addr, value);
    }

    fn unmap_bios(&mut self)
        ensures
            forall|value: u8| *final(self) == #[trigger] old(self).spec_write(0xFF50, value),
    {
        reveal(Bus::spec_write);
        self.bios_enable = false;
    }

    fn write_hram(&mut self, addr: u16, value: u8)
        requires
            0xFF80 <= addr < 0xFFFF,
        ensures
            *final(self) == old(self).spec_write(addr, value),
    {
        reveal(Bus::spec_write);
        self.hram[(addr - 0xFF80) as usize] = value;
    }

    fn write_enables(&mut self, value: u8)
        ensures
            *final(self) == old(self).spec_write(0xFFFF, value),
    {
        reveal(Bus::spec_write);
        self.enable_vblank_irq = (value & 0x01) != 0;
        self.enable_stat_irq = (value & 0x02) != 0;
    }

    pub fn write_u8(&mut self, addr: u16, value: u8)
        ensures
            *final(self) == old(self).spec_write(addr, value),
            final(self).keeps(*old(self)),
    {
        reveal(Bus::spec_write);
        match addr {
            0x0000..=0x7FFF => self.cart.write_rom_u8(addr, value),
            0x8000..=0x9FFF => self.write_vram(addr, value),
            0xA000..=0xBFFF => self.cart.write_ram_u8(addr, value),
            0xC000..=0xFDFF => self.write_wram(addr, value),
            0xFE00..=0xFE9F => self.write_oam(addr, value),
            0xFEA0..=0xFEFF => {},
            0xFF00 => self.write_joypad(value),
            0xFF0F => self.write_requests(value),
            0xFF10..=0xFF26 => self.apu.write_io_register(addr, value),
            0xFF46 => self.start_dma(value),
            0xFF40..=0xFF4B => self.write_ppu_register(addr, value),
            0xFF50 => self.unmap_bios(),
            0xFF80..=0xFFFE => self.write_hram(addr, value),
            0xFFFF => self.write_enables(value),
            _ => {},
        }
        proof {
            lemma_write_keeps(*old(self), addr, value);
        }
    }

    /// The bus after the transfer copied one byte: it reads the byte at the
    /// source as the processor would, writes it to object memory, and moves
    /// both cursors on. The transfer ends when the destination leaves object memory.
    pub open spec fn spec_dma_byte(self) -> Bus {
        Bus {
            ppu: self.ppu.spec_write_oam(self.dma_dst, self.spec_read(self.dma_src)),
            dma_src: self.dma_src.wrapping_add(1),
            dma_dst: (self.dma_dst + 1) as u16,
            dma_ongoing: self.dma_dst + 1 != OAM_END,
            ..self
        }
    }

    /// The bus after the transfer had `clocks` T-states: one byte for each,
    /// until the transfer ends.
    pub open spec fn spec_dma(self, clocks: nat) -> Bus
        decreases clocks,
    {
        if !self.dma_ongoing || clocks == 0 {
            self
        } else {
            self.spec_dma_byte().spec_dma((clocks - 1) as nat)
        }
    }

    /// The bus after the charged machine cycles were spent: each is four
    /// T-states, for the picture unit first and then for the transfer.
    pub open spec fn spec_spend(self) -> Bus {
        let clocks = self.cycles_to_spend * 4;
        let b = Bus { ppu: self.ppu.spec_spend(clocks as u32), ..self };
        Bus { cycles_to_spend: 0, ..b.spec_dma(clocks as nat) }
    }

    /// Bytes that the transfer has still to copy.
    pub open spec fn dma_remaining(self) -> int {
        if self.dma_ongoing {
            OAM_END - self.dma_dst
        } else {
            0
        }
    }

    fn dma_byte(&mut self)
        requires
            old(self).wf(),
            old(self).dma_ongoing,
        ensures
            *final(self) == old(self).spec_dma_byte(),
            final(self).wf(),
    {
        let value: u8 = self.read_u8(self.dma_src);
        self.ppu.write_oam_u8(self.dma_dst, value);
        self.dma_src = self.dma_src.wrapping_add(1);
        self.dma_dst += 1;
        self.dma_ongoing = self.dma_dst != OAM_END;
    }

    fn spend_ppu(&mut self, clocks: u32)
        requires
            old(self).wf(),
            old(self).ppu.clock + clocks <= u32::MAX,
        ensures
            *final(self) == (Bus { ppu: old(self).ppu.spec_spend(clocks), ..*old(self) }),
            final(self).wf(),
    {
        proof {
            lemma_spend_keeps_wf(self.ppu, clocks);
        }
        self.ppu.spend(clocks);
    }

    fn clear_cycles(&mut self)
        ensures
            *final(self) == (Bus { cycles_to_spend: 0, ..*old(self) }),
    {
        self.cycles_to_spend = 0;
    }

    pub fn spend(&mut self)
        requires
            old(self).wf(),
            old(self).ppu.clock + 4 * old(self).cycles_to_spend <= u32::MAX,
        ensures
            *final(self) == old(self).spec_spend(),
            final(self).wf(),
    {
        let t_state: u32 = self.cycles_to_spend * 4;
        self.spend_ppu(t_state);
        let ghost start = *self;
        let mut spent: u32 = 0;
        while spent < t_state && self.dma_ongoing
            invariant
                self.wf(),
                spent <= t_state,
                self.spec_dma((t_state - spent) as nat) == start.spec_dma(t_state as nat),
            decreases t_state - spent,
        {
            self.dma_byte();
            spent += 1;
        }
        self.clear_cycles();
    }
}

/// A write changes neither the cycles to spend nor where the picture unit
/// stands in the frame, and keeps a well-formed bus well formed.
pub proof fn lemma_write_keeps(bus: Bus, addr: u16, value: u8)
    ensures
        bus.spec_write(addr, value).keeps(bus),
{
    reveal(Bus::spec_write);
}

/// Charging machine cycles changes nothing that a read can see.
pub proof fn lemma_delay_keeps_memory(bus: Bus, cycles: u32, addr: u16)
    ensures
        bus.spec_delay(cycles).spec_read(addr) == bus.spec_read(addr),
        bus.wf() ==> bus.spec_delay(cycles).wf(),
{
}

/// The boot ROM covers the first 256 bytes while it is mapped. Once a write
/// to 0xFF50 has unmapped it, whatever the value written, those addresses
/// show the cartridge.
pub proof fn lemma_boot_rom_overlay(bus: Bus, value: u8, addr: u16)
    requires
        addr < 0x100,
    ensures
        bus.bios_enable ==> bus.spec_read(addr) == bus.bios[addr as int],
        !bus.spec_write(0xFF50, value).bios_enable,
        addr < bus.cart.rom@.len() ==> bus.spec_write(0xFF50, value).spec_read(addr)
            == bus.cart.rom@[addr as int],
        addr >= bus.cart.rom@.len() ==> bus.spec_write(0xFF50, value).spec_read(addr) == 0xFF,
{
    reveal(Bus::spec_write);
}

/// Once unmapped, the boot ROM never returns: no write, no charge of cycles
/// and no spending of them maps it again.
pub proof fn lemma_boot_rom_stays_unmapped(bus: Bus, addr: u16, value: u8, cycles: u32)
    requires
        !bus.bios_enable,
    ensures
        !bus.spec_write(addr, value).bios_enable,
        !bus.spec_delay(cycles).bios_enable,
        !bus.spec_spend().bios_enable,
{
    reveal(Bus::spec_write);
    lemma_dma_keeps_rest(
        Bus { ppu: bus.ppu.spec_spend((bus.cycles_to_spend * 4) as u32), ..bus },
        (bus.cycles_to_spend * 4) as nat,
    );
}

/// The transfer touches object memory and its own state, and nothing else.
pub proof fn lemma_dma_keeps_rest(bus: Bus, clocks: nat)
    ensures
        ({
            let after = bus.spec_dma(clocks);
            after == (Bus {
                ppu: PPU { oam: after.ppu.oam, ..bus.ppu },
                dma_ongoing: after.dma_ongoing,
                dma_src: after.dma_src,
                dma_dst: after.dma_dst,
                ..bus
            })
        }),
    decreases clocks,
{
    if bus.dma_ongoing && clocks > 0 {
        lemma_dma_keeps_rest(bus.spec_dma_byte(), (clocks - 1) as nat);
    }
}

/// A transfer copies one byte in each T-state: after `clocks` T-states it has
/// `clocks` bytes fewer to copy, or none.
pub proof fn lemma_dma_progress(bus: Bus, clocks: nat)
    requires
        bus.wf(),
    ensures
        bus.spec_dma(clocks).wf(),
        0 <= bus.dma_remaining() <= 160,
        bus.spec_dma(clocks).dma_remaining() == (if clocks >= bus.dma_remaining() {
            0
        } else {
            bus.dma_remaining() - clocks
        }),
    decreases clocks,
{
    if bus.dma_ongoing && clocks > 0 {
        lemma_dma_progress(bus.spec_dma_byte(), (clocks - 1) as nat);
    }
}

/// What a transfer leaves in object memory, if it reads nothing that it has
/// yet to write over: its source lies outside object memory, or is object
/// memory itself. Each byte that it has copied is the byte that stood at the
/// source when it began, and the rest of object memory is as it was.
pub proof fn lemma_dma_copies(bus: Bus, clocks: nat)
    requires
        bus.wf(),
        bus.dma_ongoing,
        bus.dma_src + bus.dma_remaining() <= 0x10000,
        bus.dma_src == bus.dma_dst || bus.dma_src + bus.dma_remaining() <= OAM_START || bus.dma_src
            >= OAM_END,
    ensures
        forall|i: int|
            0 <= i < 0xA0 ==> #[trigger] bus.spec_dma(clocks).ppu.oam[i] == (if bus.dma_dst
                - OAM_START <= i < bus.dma_dst - OAM_START + clocks {
                bus.spec_read((bus.dma_src + (i - (bus.dma_dst - OAM_START))) as u16)
            } else {
                bus.ppu.oam[i]
            }),
    decreases clocks,
{
    let first = bus.dma_dst - OAM_START;
    if clocks > 0 {
        let next = bus.spec_dma_byte();
        let value = bus.spec_read(bus.dma_src);
        assert(next.ppu.oam@ == bus.ppu.oam@.update(first, value));
        assert(bus.spec_dma(clocks) == next.spec_dma((clocks - 1) as nat));
        if next.dma_ongoing {
            lemma_dma_copies(next, (clocks - 1) as nat);
        }
        assert forall|i: int| 0 <= i < 0xA0 implies #[trigger] bus.spec_dma(clocks).ppu.oam[i] == (
        if first <= i < first + clocks {
            bus.spec_read((bus.dma_src + (i - first)) as u16)
        } else {
            bus.ppu.oam[i]
        }) by {
            if i == first {
                assert(next.ppu.oam[i] == value);
            } else {
                assert(next.ppu.oam[i] == bus.ppu.oam[i]);
                if first < i < first + clocks {
                    let addr = (bus.dma_src + (i - first)) as u16;
                    assert(next.spec_read(addr) == bus.spec_read(addr));
                }
            }
        }
    }
}

/// A transfer that begins at the start of a page below object memory, and is
/// given 160 T-states or more, fills object memory with the first 160 bytes of
/// that page as they read when the cycles are spent.
pub proof fn lemma_dma_transfer(bus: Bus, page: u8)
    requires
        bus.wf(),
        bus.dma_ongoing,
        bus.dma_dst == OAM_START,
        bus.dma_src == page * 0x100,
        page < 0xFE,
        40 <= bus.cycles_to_spend,
        bus.ppu.clock + 4 * bus.cycles_to_spend <= u32::MAX,
    ensures
        !bus.spec_spend().dma_ongoing,
        forall|i: int|
            0 <= i < 0xA0 ==> #[trigger] bus.spec_spend().ppu.oam[i] == bus.spec_read(
                (page * 0x100 + i) as u16,
            ),
{
    let clocks = bus.cycles_to_spend * 4;
    let b = Bus { ppu: bus.ppu.spec_spend(clocks as u32), ..bus };
    lemma_spend_keeps_wf(bus.ppu, clocks as u32);
    crate::ppu::timing::lemma_spend_keeps_registers(bus.ppu, clocks as u32);
    lemma_dma_progress(b, clocks as nat);
    lemma_dma_copies(b, clocks as nat);
    assert forall|i: int| 0 <= i < 0xA0 implies #[trigger] bus.spec_spend().ppu.oam[i]
        == bus.spec_read((page * 0x100 + i) as u16) by {
        let addr = (page * 0x100 + i) as u16;
        assert(b.spec_read(addr) == bus.spec_read(addr));
    }
}

/// A write to 0xFF46 starts a transfer of 160 bytes, whether or not one was
/// under way, and spending machine cycles gives it four T-states for each:
/// it is over once 160 T-states have been spent, that is after 40 cycles.
pub proof fn lemma_dma_duration(bus: Bus, page: u8)
    requires
        bus.wf(),
    ensures
        bus.spec_write(0xFF46, page).wf(),
        bus.spec_write(0xFF46, page).dma_remaining() == 160,
        bus.spec_spend().dma_remaining() == (if bus.cycles_to_spend * 4 >= bus.dma_remaining() {
            0
        } else {
            bus.dma_remaining() - bus.cycles_to_spend * 4
        }),
        bus.cycles_to_spend >= 40 ==> !bus.spec_spend().dma_ongoing,
{
    reveal(Bus::spec_write);
    let clocks = bus.cycles_to_spend * 4;
    let b = Bus { ppu: bus.ppu.spec_spend(clocks as u32), ..bus };
    lemma_spend_keeps_wf(bus.ppu, clocks as u32);
    lemma_dma_progress(b, clocks as nat);
}

/// Spending what one step of the processor can charge keeps the bus well
/// formed and the picture unit at its pace, and leaves nothing to spend.
pub proof fn lemma_spend_paced(bus: Bus)
    requires
        bus.wf(),
        bus.ppu.paced(),
        bus.cycles_to_spend <= 20,
    ensures
        bus.spec_spend().wf(),
        bus.spec_spend().ppu.paced(),
        bus.spec_spend().cycles_to_spend == 0,
        bus.ppu.clock + 4 * bus.cycles_to_spend <= u32::MAX,
{
    let clocks = bus.cycles_to_spend * 4;
    let b = Bus { ppu: bus.ppu.spec_spend(clocks as u32), ..bus };
    lemma_spend_keeps_wf(bus.ppu, clocks as u32);
    lemma_spend_keeps_pace(bus.ppu, clocks as u32);
    lemma_dma_progress(b, clocks as nat);
    lemma_dma_keeps_rest(b, clocks as nat);
}

/// Whether `addr` lies in work RAM, in its echo, or in high RAM: the
/// memory that the processor can both write and read back.
pub open spec fn is_ram(addr: u16) -> bool {
    0xC000 <= addr < 0xFE00 || 0xFF80 <= addr < 0xFFFF
}

/// The cell of RAM that stands behind `addr`. Work RAM and its echo share
/// their cells.
pub open spec fn ram_cell(addr: u16) -> int {
    if addr < 0xE000 {
        addr - 0xC000
    } else if addr < 0xFE00 {
        addr - 0xE000
    } else {
        0x2000 + (addr - 0xFF80)
    }
}

/// RAM holds what was written to it: a write to RAM is read back from every
/// address of the same cell, and changes what is read nowhere else.
pub proof fn lemma_ram_holds(bus: Bus, addr: u16, value: u8, other: u16)
    requires
        is_ram(addr),
    ensures
        bus.spec_write(addr, value).spec_read(addr) == value,
        is_ram(other) && ram_cell(other) == ram_cell(addr) ==> bus.spec_write(
            addr,
            value,
        ).spec_read(other) == value,
        !(is_ram(other) && ram_cell(other) == ram_cell(addr)) ==> bus.spec_write(
            addr,
            value,
        ).spec_read(other) == bus.spec_read(other),
{
    reveal(Bus::spec_write);
}

/// A write to RAM changes no interrupt line, and taking an interrupt
/// changes nothing in RAM.
pub proof fn lemma_ram_apart_from_irq(bus: Bus, addr: u16, value: u8)
    requires
        is_ram(addr),
    ensures
        bus.spec_write(addr, value).spec_irq() == bus.spec_irq(),
        bus.spec_write(addr, value).ppu == bus.ppu,
        bus.spec_ack_irq().spec_read(addr) == bus.spec_read(addr),
{
    reveal(Bus::spec_write);
}

impl Default for Bus {
    fn default() -> (r: Bus)
        ensures
            r.is_reset(),
            r.wf(),
            r.ppu.paced(),
    {
        Bus::new()
    }
}

} // verus!
