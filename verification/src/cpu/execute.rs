use crate::bus::Bus;
use crate::cpu::access::{machine, relative, relative_of, Machine};
use crate::cpu::alu::{rotated_left, rotated_right, swapped};
use crate::cpu::CPU;
use crate::error::GbError;
use vstd::prelude::*;

verus! {

impl CPU {
    /// The arithmetic or logic operation on A that an instruction names by
    /// `kind`: ADD, ADC, SUB, SBC, AND, XOR, OR for 0 to 6, and CP otherwise.
    pub open spec fn spec_alu(self, kind: u8, value: u8) -> CPU {
        if kind == 0 {
            self.spec_add_u8(value)
        } else if kind == 1 {
            self.spec_adc_u8(value)
        } else if kind == 2 {
            self.spec_sub_u8(value)
        } else if kind == 3 {
            self.spec_sbc_u8(value)
        } else if kind == 4 {
            self.spec_and_u8(value)
        } else if kind == 5 {
            self.spec_xor_u8(value)
        } else if kind == 6 {
            self.spec_or_u8(value)
        } else {
            self.spec_cp_u8(value)
        }
    }

    pub fn alu(&mut self, kind: u8, value: u8)
        ensures
            *final(self) == old(self).spec_alu(kind, value),
    {
        reveal(Machine::spec_alu);
        match kind {
            0 => self.add_u8(value),
            1 => self.adc_u8(value),
            2 => self.sub_u8(value),
            3 => self.sbc_u8(value),
            4 => self.and_u8(value),
            5 => self.xor_u8(value),
            6 => self.or_u8(value),
            _ => self.cp_u8(value),
        }
    }

    /// The number that the rotation or shift named by `kind` stores for
    /// `value`: RLC, RRC, RL, RR, SLA, SRA, SWAP for 0 to 6, and SRL otherwise.
    pub open spec fn spec_shift_value(self, kind: u8, value: u8) -> u8 {
        if kind == 0 {
            rotated_left(value)
        } else if kind == 1 {
            rotated_right(value)
        } else if kind == 2 {
            self.spec_rl_value(value)
        } else if kind == 3 {
            self.spec_rr_value(value)
        } else if kind == 4 {
            value << 1
        } else if kind == 5 {
            CPU::spec_sra_value(value)
        } else if kind == 6 {
            swapped(value)
        } else {
            value >> 1
        }
    }

    /// The processor after the rotation or shift named by `kind` on `value`.
    pub open spec fn spec_shift(self, kind: u8, value: u8) -> CPU {
        if kind == 0 {
            self.spec_rlc_u8(value)
        } else if kind == 1 {
            self.spec_rrc_u8(value)
        } else if kind == 2 {
            self.spec_rl_u8(value)
        } else if kind == 3 {
            self.spec_rr_u8(value)
        } else if kind == 4 {
            self.spec_sla_u8(value)
        } else if kind == 5 {
            self.spec_sra_u8(value)
        } else if kind == 6 {
            self.spec_swap_u8(value)
        } else {
            self.spec_srl_u8(value)
        }
    }

    pub fn shift(&mut self, kind: u8, value: u8) -> (r: u8)
        ensures
            *final(self) == old(self).spec_shift(kind, value),
            r == old(self).spec_shift_value(kind, value),
    {
        match kind {
            0 => self.rlc_u8(value),
            1 => self.rrc_u8(value),
            2 => self.rl_u8(value),
            3 => self.rr_u8(value),
            4 => self.sla_u8(value),
            5 => self.sra_u8(value),
            6 => self.swap_u8(value),
            _ => self.srl_u8(value),
        }
    }

    /// RLCA, RRCA, RLA and RRA, for `kind` 0 to 3: the rotation on A, which
    /// always leaves Z clear.
    pub open spec fn spec_rotate_a(self, kind: u8) -> CPU {
        CPU { a: self.spec_shift_value(kind, self.a), zero: false, ..self.spec_shift(kind, self.a) }
    }

    pub fn rotate_a(&mut self, kind: u8)
        ensures
            *final(self) == old(self).spec_rotate_a(kind),
    {
        let a: u8 = self.shift(kind, self.a);
        *self = CPU { a, zero: false, ..*self };
    }

    /// The address that an indirect load or store of A names by `index`: BC,
    /// DE for 0 and 1, and HL otherwise.
    pub open spec fn pointer(self, index: u8) -> u16 {
        if index == 0 {
            self.spec_bc()
        } else if index == 1 {
            self.spec_de()
        } else {
            self.spec_hl()
        }
    }

    /// The processor after such a load or store: index 2 moves HL up by one,
    /// index 3 moves it down by one.
    pub open spec fn stepped(self, index: u8) -> CPU {
        if index == 2 {
            self.spec_set_hl(self.spec_hl().wrapping_add(1))
        } else if index == 3 {
            self.spec_set_hl(self.spec_hl().wrapping_sub(1))
        } else {
            self
        }
    }

    fn get_pointer(&self, index: u8) -> (r: u16)
        ensures
            r == self.pointer(index),
    {
        match index {
            0 => self.bc(),
            1 => self.de(),
            _ => self.hl(),
        }
    }

    fn step_pointer(&mut self, index: u8)
        ensures
            *final(self) == old(self).stepped(index),
    {
        if index == 2 {
            self.set_hl(self.hl().wrapping_add(1));
        } else if index == 3 {
            self.set_hl(self.hl().wrapping_sub(1));
        }
    }
}

impl Machine {
    /// LD (nn),SP.
    #[verifier::opaque]
    pub open spec fn spec_store_sp(self) -> Machine {
        self.advance(2).store16(self.operand16(), self.cpu.sp)
    }

    /// LD rr,nn.
    #[verifier::opaque]
    pub open spec fn spec_load_wide(self, index: u8) -> Machine {
        let m = self.advance(2);
        m.with_cpu(m.cpu.with_wide(index, self.operand16()))
    }

    /// ADD HL,rr: the addition takes a cycle of its own.
    #[verifier::opaque]
    pub open spec fn spec_add_wide(self, index: u8) -> Machine {
        Machine { cpu: self.cpu.spec_add_hl(self.cpu.wide(index)), bus: self.bus.spec_delay(1) }
    }

    /// LD (BC),A, LD (DE),A, LD (HL+),A and LD (HL-),A.
    #[verifier::opaque]
    pub open spec fn spec_store_a(self, index: u8) -> Machine {
        self.store(self.cpu.pointer(index), self.cpu.a).with_cpu(self.cpu.stepped(index))
    }

    /// LD A,(BC), LD A,(DE), LD A,(HL+) and LD A,(HL-).
    #[verifier::opaque]
    pub open spec fn spec_load_a(self, index: u8) -> Machine {
        Machine {
            cpu: CPU { a: self.peek(self.cpu.pointer(index)), ..self.cpu.stepped(index) },
            bus: self.bus.spec_delay(1),
        }
    }

    /// INC rr: the increment takes a cycle of its own and changes no flag.
    #[verifier::opaque]
    pub open spec fn spec_inc_wide(self, index: u8) -> Machine {
        Machine {
            cpu: self.cpu.with_wide(index, self.cpu.wide(index).wrapping_add(1)),
            bus: self.bus.spec_delay(1),
        }
    }

    /// DEC rr: the decrement takes a cycle of its own and changes no flag.
    #[verifier::opaque]
    pub open spec fn spec_dec_wide(self, index: u8) -> Machine {
        Machine {
            cpu: self.cpu.with_wide(index, self.cpu.wide(index).wrapping_sub(1)),
            bus: self.bus.spec_delay(1),
        }
    }

    /// INC r and INC (HL).
    #[verifier::opaque]
    pub open spec fn spec_inc(self, index: u8) -> Machine {
        let value = self.operand8(index);
        let m = self.after_operand8(index);
        m.with_cpu(m.cpu.spec_inc_u8(value)).with_operand8(index, CPU::spec_inc_value(value))
    }

    /// DEC r and DEC (HL).
    #[verifier::opaque]
    pub open spec fn spec_dec(self, index: u8) -> Machine {
        let value = self.operand8(index);
        let m = self.after_operand8(index);
        m.with_cpu(m.cpu.spec_dec_u8(value)).with_operand8(index, CPU::spec_dec_value(value))
    }

    /// LD r,n and LD (HL),n.
    #[verifier::opaque]
    pub open spec fn spec_load_immediate(self, index: u8) -> Machine {
        self.advance(1).with_operand8(index, self.operand())
    }

    /// LD r,r', LD r,(HL) and LD (HL),r.
    #[verifier::opaque]
    pub open spec fn spec_load(self, target: u8, source: u8) -> Machine {
        self.after_operand8(source).with_operand8(target, self.operand8(source))
    }

    /// The arithmetic and logic instructions on A and a register or (HL).
    #[verifier::opaque]
    pub open spec fn spec_alu(self, kind: u8, source: u8) -> Machine {
        let m = self.after_operand8(source);
        m.with_cpu(m.cpu.spec_alu(kind, self.operand8(source)))
    }

    /// The arithmetic and logic instructions on A and the operand byte.
    #[verifier::opaque]
    pub open spec fn spec_alu_immediate(self, kind: u8) -> Machine {
        let m = self.advance(1);
        m.with_cpu(m.cpu.spec_alu(kind, self.operand()))
    }

    /// POP rr. Of what is popped into AF, bits 3 to 0 are lost.
    #[verifier::opaque]
    pub open spec fn spec_pop_pair(self, index: u8) -> Machine {
        let m = self.pop();
        m.with_cpu(m.cpu.with_stacked(index, self.top()))
    }

    /// PUSH rr.
    #[verifier::opaque]
    pub open spec fn spec_push_pair(self, index: u8) -> Machine {
        self.push(self.cpu.stacked(index))
    }

    /// RETI: RET, and interrupts are enabled.
    #[verifier::opaque]
    pub open spec fn spec_reti(self) -> Machine {
        let m = self.spec_ret();
        m.with_cpu(CPU { ime: true, ..m.cpu })
    }

    /// LDH (n),A: A is stored in the page at 0xFF00.
    #[verifier::opaque]
    pub open spec fn spec_store_high(self) -> Machine {
        self.advance(1).store((0xFF00 + self.operand()) as u16, self.cpu.a)
    }

    /// LDH A,(n): A is loaded from the page at 0xFF00.
    #[verifier::opaque]
    pub open spec fn spec_load_high(self) -> Machine {
        let m = self.advance(1);
        Machine {
            cpu: CPU { a: self.peek((0xFF00 + self.operand()) as u16), ..m.cpu },
            bus: m.bus.spec_delay(1),
        }
    }

    /// LD (C),A: A is stored in the page at 0xFF00, at the offset in C.
    #[verifier::opaque]
    pub open spec fn spec_store_high_c(self) -> Machine {
        self.store((0xFF00 + self.cpu.c) as u16, self.cpu.a)
    }

    /// JP (HL): the only jump that costs no cycle of its own.
    #[verifier::opaque]
    pub open spec fn spec_jp_hl(self) -> Machine {
        self.with_cpu(CPU { pc: self.cpu.spec_hl(), ..self.cpu })
    }

    /// LD (nn),A.
    #[verifier::opaque]
    pub open spec fn spec_store_absolute(self) -> Machine {
        self.advance(2).store(self.operand16(), self.cpu.a)
    }

    /// LD A,(nn).
    #[verifier::opaque]
    pub open spec fn spec_load_absolute(self) -> Machine {
        let m = self.advance(2);
        Machine {
            cpu: CPU { a: self.peek(self.operand16()), ..m.cpu },
            bus: m.bus.spec_delay(1),
        }
    }

    /// LD HL,SP+e: HL takes SP moved by the signed operand. No flag changes.
    #[verifier::opaque]
    pub open spec fn spec_load_hl_sp(self) -> Machine {
        let m = self.advance(1);
        m.with_cpu(m.cpu.spec_set_hl(relative(self.cpu.sp, self.operand())))
    }

    /// LD SP,HL: the copy takes a cycle of its own.
    #[verifier::opaque]
    pub open spec fn spec_load_sp_hl(self) -> Machine {
        Machine { cpu: CPU { sp: self.cpu.spec_hl(), ..self.cpu }, bus: self.bus.spec_delay(1) }
    }

    /// The instruction of the second page with the number `op`, on the
    /// machine behind it. Bits 2 to 0 of `op` name the operand and bits 5 to
    /// 3 a number n: below 0x40 the rotation or shift of kind n, then BIT n,
    /// from 0x80 RES n, from 0xC0 SET n. BIT only reads its operand.
    #[verifier::opaque]
    pub open spec fn spec_execute_cb(self, op: u8) -> Machine {
        let index = op % 8;
        let n = (op / 8) % 8;
        let value = self.operand8(index);
        let m = self.after_operand8(index);
        if op < 0x40 {
            m.with_cpu(m.cpu.spec_shift(n, value)).with_operand8(
                index,
                m.cpu.spec_shift_value(n, value),
            )
        } else if op < 0x80 {
            m.with_cpu(m.cpu.spec_bit_u8(n, value))
        } else if op < 0xC0 {
            m.with_operand8(index, CPU::spec_res_u8(n, value))
        } else {
            m.with_operand8(index, CPU::spec_set_u8(n, value))
        }
    }

    /// The machine after the prefix 0xCB: the byte behind it is fetched and
    /// taken as an instruction of the second page.
    #[verifier::opaque]
    pub open spec fn spec_run_cb(self) -> Machine {
        self.advance(1).spec_execute_cb(self.operand())
    }
}

impl CPU {
    pub(crate) fn store_sp(&mut self, bus: &mut Bus)
        requires
            machine(*old(self), *old(bus)).room(5),
        ensures
            machine(*final(self), *final(bus)).keeps(machine(*old(self), *old(bus)), 5),
            machine(*final(self), *final(bus)) == machine(*old(self), *old(bus)).spec_store_sp(),
    {
        reveal(Machine::spec_store_sp);
        let addr: u16 = self.next_u16(bus);
        self.write_u16(bus, addr, self.sp);
    }

    pub(crate) fn load_wide(&mut self, bus: &mut Bus, index: u8)
        requires
            machine(*old(self), *old(bus)).room(5),
        ensures
            machine(*final(self), *final(bus)).keeps(machine(*old(self), *old(bus)), 5),
            machine(*final(self), *final(bus)) == machine(*old(self), *old(bus)).spec_load_wide(
                index,
            ),
    {
        reveal(Machine::spec_load_wide);
        let value: u16 = self.next_u16(bus);
        self.set_wide(index, value);
    }

    pub(crate) fn add_wide(&mut self, bus: &mut Bus, index: u8)
        requires
            machine(*old(self), *old(bus)).room(5),
        ensures
            machine(*final(self), *final(bus)).keeps(machine(*old(self), *old(bus)), 5),
            machine(*final(self), *final(bus)) == machine(*old(self), *old(bus)).spec_add_wide(
                index,
            ),
    {
        reveal(Machine::spec_add_wide);
        let value: u16 = self.get_wide(index);
        self.add_u16(bus, value);
    }

    pub(crate) fn store_a(&mut self, bus: &mut Bus, index: u8)
        requires
            machine(*old(self), *old(bus)).room(5),
        ensures
            machine(*final(self), *final(bus)).keeps(machine(*old(self), *old(bus)), 5),
            machine(*final(self), *final(bus)) == machine(*old(self), *old(bus)).spec_store_a(
                index,
            ),
    {
        reveal(Machine::spec_store_a);
        let addr: u16 = self.get_pointer(index);
        self.write_u8(bus, addr, self.a);
        self.step_pointer(index);
    }

    pub(crate) fn load_a(&mut self, bus: &mut Bus, index: u8)
        requires
            machine(*old(self), *old(bus)).room(5),
        ensures
            machine(*final(self), *final(bus)).keeps(machine(*old(self), *old(bus)), 5),
            machine(*final(self), *final(bus)) == machine(*old(self), *old(bus)).spec_load_a(
                index,
            ),
    {
        reveal(Machine::spec_load_a);
        let addr: u16 = self.get_pointer(index);
        let value: u8 = self.read_u8(bus, addr);
        self.step_pointer(index);
        *self = CPU { a: value, ..*self };
    }

    pub(crate) fn inc_wide(&mut self, bus: &mut Bus, index: u8)
        requires
            machine(*old(self), *old(bus)).room(5),
        ensures
            machine(*final(self), *final(bus)).keeps(machine(*old(self), *old(bus)), 5),
            machine(*final(self), *final(bus)) == machine(*old(self), *old(bus)).spec_inc_wide(
                index,
            ),
    {
        reveal(Machine::spec_inc_wide);
        let value: u16 = self.inc_u16(bus, self.get_wide(index));
        self.set_wide(index, value);
    }

    pub(crate) fn dec_wide(&mut self, bus: &mut Bus, index: u8)
        requires
            machine(*old(self), *old(bus)).room(5),
        ensures
            machine(*final(self), *final(bus)).keeps(machine(*old(self), *old(bus)), 5),
            machine(*final(self), *final(bus)) == machine(*old(self), *old(bus)).spec_dec_wide(
                index,
            ),
    {
        reveal(Machine::spec_dec_wide);
        let value: u16 = self.dec_u16(bus, self.get_wide(index));
        self.set_wide(index, value);
    }

    pub(crate) fn inc(&mut self, bus: &mut Bus, index: u8)
        requires
            machine(*old(self), *old(bus)).room(5),
        ensures
            machine(*final(self), *final(bus)).keeps(machine(*old(self), *old(bus)), 5),
            machine(*final(self), *final(bus)) == machine(*old(self), *old(bus)).spec_inc(index),
    {
        reveal(Machine::spec_inc);
        let value: u8 = self.get_operand8(bus, index);
        let result: u8 = self.inc_u8(value);
        self.set_operand8(bus, index, result);
    }

    pub(crate) fn dec(&mut self, bus: &mut Bus, index: u8)
        requires
            machine(*old(self), *old(bus)).room(5),
        ensures
            machine(*final(self), *final(bus)).keeps(machine(*old(self), *old(bus)), 5),
            machine(*final(self), *final(bus)) == machine(*old(self), *old(bus)).spec_dec(index),
    {
        reveal(Machine::spec_dec);
        let value: u8 = self.get_operand8(bus, index);
        let result: u8 = self.dec_u8(value);
        self.set_operand8(bus, index, result);
    }

    pub(crate) fn load_immediate(&mut self, bus: &mut Bus, index: u8)
        requires
            machine(*old(self), *old(bus)).room(5),
        ensures
            machine(*final(self), *final(bus)).keeps(machine(*old(self), *old(bus)), 5),
            machine(*final(self), *final(bus)) == machine(
                *old(self),
                *old(bus),
            ).spec_load_immediate(index),
    {
        reveal(Machine::spec_load_immediate);
        let value: u8 = self.next_u8(bus);
        self.set_operand8(bus, index, value);
    }

    pub(crate) fn load(&mut self, bus: &mut Bus, target: u8, source: u8)
        requires
            machine(*old(self), *old(bus)).room(5),
        ensures
            machine(*final(self), *final(bus)).keeps(machine(*old(self), *old(bus)), 5),
            machine(*final(self), *final(bus)) == machine(*old(self), *old(bus)).spec_load(
                target,
                source,
            ),
    {
        reveal(Machine::spec_load);
        let value: u8 = self.get_operand8(bus, source);
        self.set_operand8(bus, target, value);
    }

    pub(crate) fn alu_operand(&mut self, bus: &mut Bus, kind: u8, source: u8)
        requires
            machine(*old(self), *old(bus)).room(5),
        ensures
            machine(*final(self), *final(bus)).keeps(machine(*old(self), *old(bus)), 5),
            machine(*final(self), *final(bus)) == machine(*old(self), *old(bus)).spec_alu(
                kind,
                source,
            ),
    {
        reveal(Machine::spec_alu);
        let value: u8 = self.get_operand8(bus, source);
        self.alu(kind, value);
    }

    pub(crate) fn alu_immediate(&mut self, bus: &mut Bus, kind: u8)
        requires
            machine(*old(self), *old(bus)).room(5),
        ensures
            machine(*final(self), *final(bus)).keeps(machine(*old(self), *old(bus)), 5),
            machine(*final(self), *final(bus)) == machine(
                *old(self),
                *old(bus),
            ).spec_alu_immediate(kind),
    {
        reveal(Machine::spec_alu_immediate);
        let value: u8 = self.next_u8(bus);
        self.alu(kind, value);
    }

    pub(crate) fn pop_pair(&mut self, bus: &mut Bus, index: u8)
        requires
            machine(*old(self), *old(bus)).room(5),
        ensures
            machine(*final(self), *final(bus)).keeps(machine(*old(self), *old(bus)), 5),
            machine(*final(self), *final(bus)) == machine(*old(self), *old(bus)).spec_pop_pair(
                index,
            ),
    {
        reveal(Machine::spec_pop_pair);
        let value: u16 = self.pop(bus);
        self.set_stacked(index, value);
    }

    pub(crate) fn push_pair(&mut self, bus: &mut Bus, index: u8)
        requires
            machine(*old(self), *old(bus)).room(5),
        ensures
            machine(*final(self), *final(bus)).keeps(machine(*old(self), *old(bus)), 5),
            machine(*final(self), *final(bus)) == machine(*old(self), *old(bus)).spec_push_pair(
                index,
            ),
    {
        reveal(Machine::spec_push_pair);
        let value: u16 = self.get_stacked(index);
        self.push(bus, value);
    }

    pub(crate) fn reti(&mut self, bus: &mut Bus)
        requires
            machine(*old(self), *old(bus)).room(5),
        ensures
            machine(*final(self), *final(bus)).keeps(machine(*old(self), *old(bus)), 5),
            machine(*final(self), *final(bus)) == machine(*old(self), *old(bus)).spec_reti(),
    {
        reveal(Machine::spec_reti);
        self.ret(bus);
        *self = CPU { ime: true, ..*self };
    }

    pub(crate) fn store_high(&mut self, bus: &mut Bus)
        requires
            machine(*old(self), *old(bus)).room(5),
        ensures
            machine(*final(self), *final(bus)).keeps(machine(*old(self), *old(bus)), 5),
            machine(*final(self), *final(bus)) == machine(*old(self), *old(bus)).spec_store_high(),
    {
        reveal(Machine::spec_store_high);
        let offset: u8 = self.next_u8(bus);
        self.write_u8(bus, 0xFF00 + (offset as u16), self.a);
    }

    pub(crate) fn load_high(&mut self, bus: &mut Bus)
        requires
            machine(*old(self), *old(bus)).room(5),
        ensures
            machine(*final(self), *final(bus)).keeps(machine(*old(self), *old(bus)), 5),
            machine(*final(self), *final(bus)) == machine(*old(self), *old(bus)).spec_load_high(),
    {
        reveal(Machine::spec_load_high);
        let offset: u8 = self.next_u8(bus);
        let value: u8 = self.read_u8(bus, 0xFF00 + (offset as u16));
        *self = CPU { a: value, ..*self };
    }

    pub(crate) fn store_high_c(&mut self, bus: &mut Bus)
        requires
            machine(*old(self), *old(bus)).room(5),
        ensures
            machine(*final(self), *final(bus)).keeps(machine(*old(self), *old(bus)), 5),
            machine(*final(self), *final(bus)) == machine(
                *old(self),
                *old(bus),
            ).spec_store_high_c(),
    {
        reveal(Machine::spec_store_high_c);
        self.write_u8(bus, 0xFF00 + (self.c as u16), self.a);
    }

    pub(crate) fn jp_hl(&mut self)
        ensures
            *final(self) == (CPU { pc: old(self).spec_hl(), ..*old(self) }),
    {
        *self = CPU { pc: self.hl(), ..*self };
    }

    pub(crate) fn store_absolute(&mut self, bus: &mut Bus)
        requires
            machine(*old(self), *old(bus)).room(5),
        ensures
            machine(*final(self), *final(bus)).keeps(machine(*old(self), *old(bus)), 5),
            machine(*final(self), *final(bus)) == machine(
                *old(self),
                *old(bus),
            ).spec_store_absolute(),
    {
        reveal(Machine::spec_store_absolute);
        let addr: u16 = self.next_u16(bus);
        self.write_u8(bus, addr, self.a);
    }

    pub(crate) fn load_absolute(&mut self, bus: &mut Bus)
        requires
            machine(*old(self), *old(bus)).room(5),
        ensures
            machine(*final(self), *final(bus)).keeps(machine(*old(self), *old(bus)), 5),
            machine(*final(self), *final(bus)) == machine(
                *old(self),
                *old(bus),
            ).spec_load_absolute(),
    {
        reveal(Machine::spec_load_absolute);
        let addr: u16 = self.next_u16(bus);
        let value: u8 = self.read_u8(bus, addr);
        *self = CPU { a: value, ..*self };
    }

    pub(crate) fn load_hl_sp(&mut self, bus: &mut Bus)
        requires
            machine(*old(self), *old(bus)).room(5),
        ensures
            machine(*final(self), *final(bus)).keeps(machine(*old(self), *old(bus)), 5),
            machine(*final(self), *final(bus)) == machine(*old(self), *old(bus)).spec_load_hl_sp(),
    {
        reveal(Machine::spec_load_hl_sp);
        let offset: u8 = self.next_u8(bus);
        self.set_hl(relative_of(self.sp, offset));
    }

    pub(crate) fn load_sp_hl(&mut self, bus: &mut Bus)
        requires
            machine(*old(self), *old(bus)).room(5),
        ensures
            machine(*final(self), *final(bus)).keeps(machine(*old(self), *old(bus)), 5),
            machine(*final(self), *final(bus)) == machine(*old(self), *old(bus)).spec_load_sp_hl(),
    {
        reveal(Machine::spec_load_sp_hl);
        bus.delay(1);
        *self = CPU { sp: self.hl(), ..*self };
    }

    fn execute_cb(&mut self, bus: &mut Bus, op: u8)
        requires
            machine(*old(self), *old(bus)).room(2),
        ensures
            machine(*final(self), *final(bus)).keeps(machine(*old(self), *old(bus)), 2),
            machine(*final(self), *final(bus)) == machine(*old(self), *old(bus)).spec_execute_cb(
                op,
            ),
    {
        reveal(Machine::spec_execute_cb);
        let index: u8 = op % 8;
        let n: u8 = (op / 8) % 8;
        let value: u8 = self.get_operand8(bus, index);
        if op < 0x40 {
            let result: u8 = self.shift(n, value);
            self.set_operand8(bus, index, result);
        } else if op < 0x80 {
            self.bit_u8(n, value);
        } else if op < 0xC0 {
            let result: u8 = self.res_u8(n, value);
            self.set_operand8(bus, index, result);
        } else {
            let result: u8 = self.set_u8(n, value);
            self.set_operand8(bus, index, result);
        }
    }

    pub fn run_cb_instruction(&mut self, bus: &mut Bus)
        requires
            machine(*old(self), *old(bus)).room(3),
        ensures
            machine(*final(self), *final(bus)).keeps(machine(*old(self), *old(bus)), 3),
            machine(*final(self), *final(bus)) == machine(*old(self), *old(bus)).spec_run_cb(),
    {
        reveal(Machine::spec_run_cb);
        let instr: u8 = self.next_u8(bus);
        self.execute_cb(bus, instr);
    }
}

} // verus!
