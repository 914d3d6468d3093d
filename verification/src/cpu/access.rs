use crate::bus::Bus;
use crate::cpu::{high_byte, high_byte_of, low_byte, low_byte_of, pair, pair_of, CPU};
use vstd::prelude::*;

verus! {

/// The processor together with the bus that it drives: the state that an
/// instruction works on.
pub struct Machine {
    pub cpu: CPU,
    pub bus: Bus,
}

/// The machine made of `cpu` and `bus`.
pub open spec fn machine(cpu: CPU, bus: Bus) -> Machine {
    Machine { cpu, bus }
}

/// The address that a relative jump from `pc` by the signed byte `offset` reaches.
pub open spec fn relative(pc: u16, offset: u8) -> u16 {
    if offset < 0x80 {
        pc.wrapping_add(offset as u16)
    } else {
        pc.wrapping_sub((0x100 - offset) as u16)
    }
}

pub fn relative_of(pc: u16, offset: u8) -> (r: u16)
    ensures
        r == relative(pc, offset),
{
    if offset < 0x80 {
        pc.wrapping_add(offset as u16)
    } else {
        pc.wrapping_sub(0x100 - (offset as u16))
    }
}

impl Machine {
    /// Machine cycles charged and not yet spent.
    pub open spec fn cycles(self) -> int {
        self.bus.cycles_to_spend as int
    }

    /// Whether `cycles` more machine cycles can be charged.
    pub open spec fn room(self, cycles: int) -> bool {
        self.bus.cycles_to_spend + cycles <= u32::MAX
    }

    /// What every instruction keeps of the machine `before` it: it charges
    /// at most `most` cycles, leaves the picture unit where it stands in the
    /// frame, and keeps a well-formed bus well formed.
    pub open spec fn keeps(self, before: Machine, most: int) -> bool {
        &&& before.cycles() <= self.cycles() <= before.cycles() + most
        &&& self.bus.ppu.timing() == before.bus.ppu.timing()
        &&& (before.bus.wf() ==> self.bus.wf())
    }

    /// The machine with another processor state.
    pub open spec fn with_cpu(self, cpu: CPU) -> Machine {
        Machine { cpu, ..self }
    }

    /// The machine after `cycles` machine cycles were charged.
    pub open spec fn tick(self, cycles: u32) -> Machine {
        Machine { bus: self.bus.spec_delay(cycles), ..self }
    }

    /// The byte at `addr`.
    pub open spec fn peek(self, addr: u16) -> u8 {
        self.bus.spec_read(addr)
    }

    /// The 16-bit number at `addr`, low byte first.
    pub open spec fn peek16(self, addr: u16) -> u16 {
        pair(self.peek(addr.wrapping_add(1)), self.peek(addr))
    }

    /// The machine after `value` was written at `addr`: the write costs one cycle.
    pub open spec fn store(self, addr: u16, value: u8) -> Machine {
        Machine { bus: self.bus.spec_delay(1).spec_write(addr, value), ..self }
    }

    /// The machine after the 16-bit `value` was written at `addr`, low byte first.
    pub open spec fn store16(self, addr: u16, value: u16) -> Machine {
        self.store(addr, low_byte(value)).store(addr.wrapping_add(1), high_byte(value))
    }

    /// The byte that follows in the program.
    pub open spec fn operand(self) -> u8 {
        self.peek(self.cpu.pc)
    }

    /// The 16-bit number that follows in the program.
    pub open spec fn operand16(self) -> u16 {
        self.peek16(self.cpu.pc)
    }

    /// The machine after `bytes` bytes of the program were read.
    pub open spec fn advance(self, bytes: u16) -> Machine {
        Machine {
            cpu: CPU { pc: self.cpu.pc.wrapping_add(bytes), ..self.cpu },
            bus: self.bus.spec_delay(bytes as u32),
        }
    }

    /// The machine after the program counter was set: that costs one cycle.
    pub open spec fn jump(self, addr: u16) -> Machine {
        Machine { cpu: CPU { pc: addr, ..self.cpu }, bus: self.bus.spec_delay(1) }
    }

    /// The machine after `value` was pushed: the stack grows downwards, and
    /// the high byte is written first, above the low byte.
    pub open spec fn push(self, value: u16) -> Machine {
        let sp1 = self.cpu.sp.wrapping_sub(1);
        let sp2 = self.cpu.sp.wrapping_sub(2);
        Machine { cpu: CPU { sp: sp2, ..self.cpu }, ..self }.store(sp1, high_byte(value)).store(
            sp2,
            low_byte(value),
        )
    }

    /// The 16-bit number on top of the stack.
    pub open spec fn top(self) -> u16 {
        self.peek16(self.cpu.sp)
    }

    /// The machine after the top of the stack was popped.
    pub open spec fn pop(self) -> Machine {
        Machine {
            cpu: CPU { sp: self.cpu.sp.wrapping_add(2), ..self.cpu },
            bus: self.bus.spec_delay(2),
        }
    }
}

impl CPU {
    pub fn set_pc(&mut self, bus: &mut Bus, value: u16)
        requires
            machine(*old(self), *old(bus)).room(1),
        ensures
            machine(*final(self), *final(bus)).keeps(machine(*old(self), *old(bus)), 1),
            machine(*final(self), *final(bus)) == machine(*old(self), *old(bus)).jump(value),
    {
        bus.delay(1);
        *self = CPU { pc: value, ..*self };
    }

    pub fn read_u8(&self, bus: &mut Bus, addr: u16) -> (r: u8)
        requires
            machine(*self, *old(bus)).room(1),
        ensures
            machine(*self, *final(bus)).keeps(machine(*self, *old(bus)), 1),
            r == old(bus).spec_read(addr),
            *final(bus) == old(bus).spec_delay(1),
    {
        bus.delay(1);
        bus.read_u8(addr)
    }

    pub fn read_u16(&self, bus: &mut Bus, addr: u16) -> (r: u16)
        requires
            machine(*self, *old(bus)).room(2),
        ensures
            machine(*self, *final(bus)).keeps(machine(*self, *old(bus)), 2),
            r == machine(*self, *old(bus)).peek16(addr),
            *final(bus) == old(bus).spec_delay(2),
    {
        let low: u8 = self.read_u8(bus, addr);
        let high: u8 = self.read_u8(bus, addr.wrapping_add(1));
        pair_of(high, low)
    }

    pub fn write_u8(&self, bus: &mut Bus, addr: u16, value: u8)
        requires
            machine(*self, *old(bus)).room(1),
        ensures
            machine(*self, *final(bus)).keeps(machine(*self, *old(bus)), 1),
            machine(*self, *final(bus)) == machine(*self, *old(bus)).store(addr, value),
    {
        bus.delay(1);
        bus.write_u8(addr, value);
    }

    pub fn write_u16(&self, bus: &mut Bus, addr: u16, value: u16)
        requires
            machine(*self, *old(bus)).room(2),
        ensures
            machine(*self, *final(bus)).keeps(machine(*self, *old(bus)), 2),
            machine(*self, *final(bus)) == machine(*self, *old(bus)).store16(addr, value),
    {
        self.write_u8(bus, addr, low_byte_of(value));
        self.write_u8(bus, addr.wrapping_add(1), high_byte_of(value));
    }

    pub fn next_u8(&mut self, bus: &mut Bus) -> (r: u8)
        requires
            machine(*old(self), *old(bus)).room(1),
        ensures
            machine(*final(self), *final(bus)).keeps(machine(*old(self), *old(bus)), 1),
            r == machine(*old(self), *old(bus)).operand(),
            machine(*final(self), *final(bus)) == machine(*old(self), *old(bus)).advance(1),
    {
        let value: u8 = self.read_u8(bus, self.pc);
        *self = CPU { pc: self.pc.wrapping_add(1), ..*self };
        value
    }

    pub fn next_u16(&mut self, bus: &mut Bus) -> (r: u16)
        requires
            machine(*old(self), *old(bus)).room(2),
        ensures
            machine(*final(self), *final(bus)).keeps(machine(*old(self), *old(bus)), 2),
            r == machine(*old(self), *old(bus)).operand16(),
            machine(*final(self), *final(bus)) == machine(*old(self), *old(bus)).advance(2),
    {
        let value: u16 = self.read_u16(bus, self.pc);
        *self = CPU { pc: self.pc.wrapping_add(2), ..*self };
        value
    }

    pub fn pop(&mut self, bus: &mut Bus) -> (r: u16)
        requires
            machine(*old(self), *old(bus)).room(2),
        ensures
            machine(*final(self), *final(bus)).keeps(machine(*old(self), *old(bus)), 2),
            r == machine(*old(self), *old(bus)).top(),
            machine(*final(self), *final(bus)) == machine(*old(self), *old(bus)).pop(),
    {
        let value: u16 = self.read_u16(bus, self.sp);
        *self = CPU { sp: self.sp.wrapping_add(2), ..*self };
        value
    }

    pub fn push(&mut self, bus: &mut Bus, value: u16)
        requires
            machine(*old(self), *old(bus)).room(2),
        ensures
            machine(*final(self), *final(bus)).keeps(machine(*old(self), *old(bus)), 2),
            machine(*final(self), *final(bus)) == machine(*old(self), *old(bus)).push(value),
    {
        let sp1: u16 = self.sp.wrapping_sub(1);
        let sp2: u16 = self.sp.wrapping_sub(2);
        self.write_u8(bus, sp1, high_byte_of(value));
        self.write_u8(bus, sp2, low_byte_of(value));
        *self = CPU { sp: sp2, ..*self };
    }

    pub fn read_hl(&self, bus: &mut Bus) -> (r: u8)
        requires
            machine(*self, *old(bus)).room(1),
        ensures
            machine(*self, *final(bus)).keeps(machine(*self, *old(bus)), 1),
            r == old(bus).spec_read(self.spec_hl()),
            *final(bus) == old(bus).spec_delay(1),
    {
        let hl: u16 = self.hl();
        self.read_u8(bus, hl)
    }

    pub fn write_hl(&self, bus: &mut Bus, value: u8)
        requires
            machine(*self, *old(bus)).room(1),
        ensures
            machine(*self, *final(bus)).keeps(machine(*self, *old(bus)), 1),
            machine(*self, *final(bus)) == machine(*self, *old(bus)).store(self.spec_hl(), value),
    {
        let hl: u16 = self.hl();
        self.write_u8(bus, hl, value);
    }

    /// The 16-bit increment takes a cycle of its own.
    pub fn inc_u16(&self, bus: &mut Bus, value: u16) -> (r: u16)
        requires
            machine(*self, *old(bus)).room(1),
        ensures
            machine(*self, *final(bus)).keeps(machine(*self, *old(bus)), 1),
            r == value.wrapping_add(1),
            *final(bus) == old(bus).spec_delay(1),
    {
        bus.delay(1);
        value.wrapping_add(1)
    }

    /// The 16-bit decrement takes a cycle of its own.
    pub fn dec_u16(&self, bus: &mut Bus, value: u16) -> (r: u16)
        requires
            machine(*self, *old(bus)).room(1),
        ensures
            machine(*self, *final(bus)).keeps(machine(*self, *old(bus)), 1),
            r == value.wrapping_sub(1),
            *final(bus) == old(bus).spec_delay(1),
    {
        bus.delay(1);
        value.wrapping_sub(1)
    }

    /// ADD HL,v takes a cycle of its own.
    pub fn add_u16(&mut self, bus: &mut Bus, value: u16)
        requires
            machine(*old(self), *old(bus)).room(1),
        ensures
            machine(*final(self), *final(bus)).keeps(machine(*old(self), *old(bus)), 1),
            *final(self) == old(self).spec_add_hl(value),
            *final(bus) == old(bus).spec_delay(1),
    {
        self.add_hl(value);
        bus.delay(1);
    }
}

} // verus!
