use crate::bus::Bus;
use crate::cpu::access::{machine, Machine};
use crate::cpu::CPU;
use crate::error::GbError;
use vstd::prelude::*;

verus! {

/// Whether `op` is an instruction of the first page. Eleven numbers name
/// no instruction of the processor; STOP, DAA, ADD SP,e and LD A,(C) are
/// not provided.
pub open spec fn known(op: u8) -> bool {
    !(op == 0x10 || op == 0x27 || op == 0xD3 || op == 0xDB || op == 0xDD || op == 0xE3 || op == 0xE4
        || op == 0xE8 || op == 0xEB || op == 0xEC || op == 0xED || op == 0xF2 || op == 0xF4 || op
        == 0xFC || op == 0xFD)
}

impl Machine {
    /// The instructions 0x00 to 0x3F, on the machine behind the opcode.
    pub open spec fn spec_execute_low(self, op: u8) -> Machine {
        match op {
            0x00 => self,
            0x08 => self.spec_store_sp(),
            0x18 => self.spec_jr(true),
            0x20 | 0x28 | 0x30 | 0x38 => self.spec_jr(self.cpu.condition(((op - 0x20) / 8) as u8)),
            0x01 | 0x11 | 0x21 | 0x31 => self.spec_load_wide(op / 16),
            0x09 | 0x19 | 0x29 | 0x39 => self.spec_add_wide(op / 16),
            0x02 | 0x12 | 0x22 | 0x32 => self.spec_store_a(op / 16),
            0x0A | 0x1A | 0x2A | 0x3A => self.spec_load_a(op / 16),
            0x03 | 0x13 | 0x23 | 0x33 => self.spec_inc_wide(op / 16),
            0x0B | 0x1B | 0x2B | 0x3B => self.spec_dec_wide(op / 16),
            0x04 | 0x0C | 0x14 | 0x1C | 0x24 | 0x2C | 0x34 | 0x3C => self.spec_inc(op / 8),
            0x05 | 0x0D | 0x15 | 0x1D | 0x25 | 0x2D | 0x35 | 0x3D => self.spec_dec(op / 8),
            0x06 | 0x0E | 0x16 | 0x1E | 0x26 | 0x2E | 0x36 | 0x3E => self.spec_load_immediate(
                op / 8,
            ),
            0x07 | 0x0F | 0x17 | 0x1F => self.with_cpu(self.cpu.spec_rotate_a(op / 8)),
            0x2F => self.with_cpu(self.cpu.spec_cpl()),
            0x37 => self.with_cpu(self.cpu.spec_scf()),
            0x3F => self.with_cpu(self.cpu.spec_ccf()),
            _ => self,
        }
    }

    /// The instructions 0xC0 to 0xFF, on the machine behind the opcode.
    pub open spec fn spec_execute_high(self, op: u8) -> Machine {
        match op {
            0xC0 | 0xC8 | 0xD0 | 0xD8 => self.spec_ret_cond(
                self.cpu.condition(((op - 0xC0) / 8) as u8),
            ),
            0xC1 | 0xD1 | 0xE1 | 0xF1 => self.spec_pop_pair(((op - 0xC0) / 16) as u8),
            0xC2 | 0xCA | 0xD2 | 0xDA => self.spec_jp(self.cpu.condition(((op - 0xC0) / 8) as u8)),
            0xC3 => self.spec_jp(true),
            0xC4 | 0xCC | 0xD4 | 0xDC => self.spec_call(
                self.cpu.condition(((op - 0xC0) / 8) as u8),
            ),
            0xC5 | 0xD5 | 0xE5 | 0xF5 => self.spec_push_pair(((op - 0xC0) / 16) as u8),
            0xC6 | 0xCE | 0xD6 | 0xDE | 0xE6 | 0xEE | 0xF6 | 0xFE => self.spec_alu_immediate(
                ((op - 0xC0) / 8) as u8,
            ),
            0xC7 | 0xCF | 0xD7 | 0xDF | 0xE7 | 0xEF | 0xF7 | 0xFF => self.spec_rst(
                (op - 0xC7) as u16,
            ),
            0xC9 => self.spec_ret(),
            0xCB => self.spec_run_cb(),
            0xCD => self.spec_call(true),
            0xD9 => self.spec_reti(),
            0xE0 => self.spec_store_high(),
            0xE2 => self.spec_store_high_c(),
            0xE9 => self.spec_jp_hl(),
            0xEA => self.spec_store_absolute(),
            0xF0 => self.spec_load_high(),
            0xF3 => self.with_cpu(CPU { ime: false, ..self.cpu }),
            0xF8 => self.spec_load_hl_sp(),
            0xF9 => self.spec_load_sp_hl(),
            0xFA => self.spec_load_absolute(),
            0xFB => self.with_cpu(CPU { ime: true, ..self.cpu }),
            _ => self,
        }
    }

    /// The instruction of the first page with the number `op`, on the
    /// machine behind the opcode. From 0x40 to 0x7F stand the loads, with the
    /// target in bits 5 to 3 and the source in bits 2 to 0, but for HALT at
    /// 0x76; from 0x80 to 0xBF the arithmetic on A, with the kind in bits 5 to
    /// 3. A number that names no instruction changes nothing.
    pub open spec fn spec_execute(self, op: u8) -> Machine {
        if op < 0x40 {
            self.spec_execute_low(op)
        } else if op == 0x76 {
            self.with_cpu(CPU { halted: true, ..self.cpu })
        } else if op < 0x80 {
            self.spec_load(((op - 0x40) / 8) as u8, op % 8)
        } else if op < 0xC0 {
            self.spec_alu(((op - 0x80) / 8) as u8, op % 8)
        } else {
            self.spec_execute_high(op)
        }
    }

    /// The machine after one instruction: the opcode is fetched, which costs
    /// a cycle, and the instruction is carried out.
    pub open spec fn spec_run_instruction(self) -> Machine {
        self.advance(1).spec_execute(self.operand())
    }

    /// What running the next instruction reports: an error for an opcode
    /// that names no instruction.
    pub open spec fn spec_status(self) -> Result<(), GbError> {
        if known(self.operand()) {
            Ok(())
        } else {
            Err(GbError::UnknownOpcode(self.operand()))
        }
    }
}

impl CPU {
    fn halt(&mut self)
        ensures
            *final(self) == (CPU { halted: true, ..*old(self) }),
    {
        *self = CPU { halted: true, ..*self };
    }

    fn set_ime(&mut self, value: bool)
        ensures
            *final(self) == (CPU { ime: value, ..*old(self) }),
    {
        *self = CPU { ime: value, ..*self };
    }

    #[verifier::rlimit(30)]
    fn execute_low(&mut self, bus: &mut Bus, op: u8) -> (r: bool)
        requires
            op < 0x40,
            machine(*old(self), *old(bus)).room(5),
        ensures
            machine(*final(self), *final(bus)).keeps(machine(*old(self), *old(bus)), 5),
            machine(*final(self), *final(bus)) == machine(*old(self), *old(bus)).spec_execute_low(
                op,
            ),
            r == known(op),
    {
        match op {
            0x00 => {},
            0x08 => self.store_sp(bus),
            0x18 => self.jr(bus),
            0x20 | 0x28 | 0x30 | 0x38 => {
                let taken: bool = self.test_condition((op - 0x20) / 8);
                self.jr_cond(bus, taken);
            },
            0x01 | 0x11 | 0x21 | 0x31 => self.load_wide(bus, op / 16),
            0x09 | 0x19 | 0x29 | 0x39 => self.add_wide(bus, op / 16),
            0x02 | 0x12 | 0x22 | 0x32 => self.store_a(bus, op / 16),
            0x0A | 0x1A | 0x2A | 0x3A => self.load_a(bus, op / 16),
            0x03 | 0x13 | 0x23 | 0x33 => self.inc_wide(bus, op / 16),
            0x0B | 0x1B | 0x2B | 0x3B => self.dec_wide(bus, op / 16),
            0x04 | 0x0C | 0x14 | 0x1C | 0x24 | 0x2C | 0x34 | 0x3C => self.inc(bus, op / 8),
            0x05 | 0x0D | 0x15 | 0x1D | 0x25 | 0x2D | 0x35 | 0x3D => self.dec(bus, op / 8),
            0x06 | 0x0E | 0x16 | 0x1E | 0x26 | 0x2E | 0x36 | 0x3E => self.load_immediate(
                bus,
                op / 8,
            ),
            0x07 | 0x0F | 0x17 | 0x1F => self.rotate_a(op / 8),
            0x2F => self.cpl(),
            0x37 => self.scf(),
            0x3F => self.ccf(),
            _ => {
                return false;
            },
        }
        true
    }

    #[verifier::rlimit(30)]
    fn execute_upper(&mut self, bus: &mut Bus, op: u8) -> (r: bool)
        requires
            0xC0 <= op < 0xE0,
            machine(*old(self), *old(bus)).room(5),
        ensures
            machine(*final(self), *final(bus)).keeps(machine(*old(self), *old(bus)), 5),
            machine(*final(self), *final(bus)) == machine(*old(self), *old(bus)).spec_execute_high(
                op,
            ),
            r == known(op),
    {
        match op {
            0xC0 | 0xC8 | 0xD0 | 0xD8 => {
                let taken: bool = self.test_condition((op - 0xC0) / 8);
                self.ret_cond(bus, taken);
            },
            0xC1 | 0xD1 => self.pop_pair(bus, (op - 0xC0) / 16),
            0xC2 | 0xCA | 0xD2 | 0xDA => {
                let taken: bool = self.test_condition((op - 0xC0) / 8);
                self.jp_cond(bus, taken);
            },
            0xC3 => self.jp_cond(bus, true),
            0xC4 | 0xCC | 0xD4 | 0xDC => {
                let taken: bool = self.test_condition((op - 0xC0) / 8);
                self.call_cond(bus, taken);
            },
            0xC5 | 0xD5 => self.push_pair(bus, (op - 0xC0) / 16),
            0xC6 | 0xCE | 0xD6 | 0xDE => self.alu_immediate(bus, (op - 0xC0) / 8),
            0xC7 | 0xCF | 0xD7 | 0xDF => self.rst(bus, (op - 0xC7) as u16),
            0xC9 => self.ret(bus),
            0xCB => self.run_cb_instruction(bus),
            0xCD => self.call(bus),
            0xD9 => self.reti(bus),
            _ => {
                return false;
            },
        }
        true
    }

    #[verifier::rlimit(30)]
    fn execute_top(&mut self, bus: &mut Bus, op: u8) -> (r: bool)
        requires
            op >= 0xE0,
            machine(*old(self), *old(bus)).room(5),
        ensures
            machine(*final(self), *final(bus)).keeps(machine(*old(self), *old(bus)), 5),
            machine(*final(self), *final(bus)) == machine(*old(self), *old(bus)).spec_execute_high(
                op,
            ),
            r == known(op),
    {
        match op {
            0xE1 | 0xF1 => self.pop_pair(bus, (op - 0xC0) / 16),
            0xE5 | 0xF5 => self.push_pair(bus, (op - 0xC0) / 16),
            0xE6 | 0xEE | 0xF6 | 0xFE => self.alu_immediate(bus, (op - 0xC0) / 8),
            0xE7 | 0xEF | 0xF7 | 0xFF => self.rst(bus, (op - 0xC7) as u16),
            0xE0 => self.store_high(bus),
            0xE2 => self.store_high_c(bus),
            0xE9 => {
                reveal(Machine::spec_jp_hl);
                self.jp_hl();
            },
            0xEA => self.store_absolute(bus),
            0xF0 => self.load_high(bus),
            0xF3 => self.set_ime(false),
            0xF8 => self.load_hl_sp(bus),
            0xF9 => self.load_sp_hl(bus),
            0xFA => self.load_absolute(bus),
            0xFB => self.set_ime(true),
            _ => {
                return false;
            },
        }
        true
    }

    /// Carries out the instruction with the number `op`, the opcode having
    /// been fetched, and tells whether `op` names an instruction.
    pub fn execute(&mut self, bus: &mut Bus, op: u8) -> (r: bool)
        requires
            machine(*old(self), *old(bus)).room(5),
        ensures
            machine(*final(self), *final(bus)).keeps(machine(*old(self), *old(bus)), 5),
            machine(*final(self), *final(bus)) == machine(*old(self), *old(bus)).spec_execute(op),
            r == known(op),
    {
        if op < 0x40 {
            self.execute_low(bus, op)
        } else if op == 0x76 {
            self.halt();
            true
        } else if op < 0x80 {
            self.load(bus, (op - 0x40) / 8, op % 8);
            true
        } else if op < 0xC0 {
            self.alu_operand(bus, (op - 0x80) / 8, op % 8);
            true
        } else if op < 0xE0 {
            self.execute_upper(bus, op)
        } else {
            self.execute_top(bus, op)
        }
    }

    /// Fetches and carries out one instruction. An opcode that names no
    /// instruction is fetched and reported, and nothing else is done.
    pub fn run_instruction(&mut self, bus: &mut Bus) -> (r: Result<(), GbError>)
        requires
            machine(*old(self), *old(bus)).room(6),
        ensures
            machine(*final(self), *final(bus)).keeps(machine(*old(self), *old(bus)), 6),
            machine(*final(self), *final(bus)) == machine(
                *old(self),
                *old(bus),
            ).spec_run_instruction(),
            r == machine(*old(self), *old(bus)).spec_status(),
    {
        let instr: u8 = self.next_u8(bus);
        if self.execute(bus, instr) {
            Ok(())
        } else {
            Err(GbError::UnknownOpcode(instr))
        }
    }
}

} // verus!
