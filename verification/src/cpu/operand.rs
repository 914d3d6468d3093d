use crate::bus::Bus;
use crate::cpu::access::{machine, Machine};
use crate::cpu::CPU;
use vstd::prelude::*;

verus! {

impl CPU {
    /// The 8-bit register that an instruction names by `index`: B, C, D, E,
    /// H, L for 0 to 5, and A for 7. Index 6 names the byte at HL, which is
    /// not a register; here it counts as A.
    pub open spec fn reg(self, index: u8) -> u8 {
        if index == 0 {
            self.b
        } else if index == 1 {
            self.c
        } else if index == 2 {
            self.d
        } else if index == 3 {
            self.e
        } else if index == 4 {
            self.h
        } else if index == 5 {
            self.l
        } else {
            self.a
        }
    }

    /// The processor with the register that `index` names set to `value`.
    pub open spec fn with_reg(self, index: u8, value: u8) -> CPU {
        if index == 0 {
            CPU { b: value, ..self }
        } else if index == 1 {
            CPU { c: value, ..self }
        } else if index == 2 {
            CPU { d: value, ..self }
        } else if index == 3 {
            CPU { e: value, ..self }
        } else if index == 4 {
            CPU { h: value, ..self }
        } else if index == 5 {
            CPU { l: value, ..self }
        } else {
            CPU { a: value, ..self }
        }
    }

    /// The 16-bit register that an instruction names by `index`: BC, DE, HL
    /// for 0 to 2, and SP otherwise.
    pub open spec fn wide(self, index: u8) -> u16 {
        if index == 0 {
            self.spec_bc()
        } else if index == 1 {
            self.spec_de()
        } else if index == 2 {
            self.spec_hl()
        } else {
            self.sp
        }
    }

    /// The processor with the 16-bit register that `index` names set to `value`.
    pub open spec fn with_wide(self, index: u8, value: u16) -> CPU {
        if index == 0 {
            self.spec_set_bc(value)
        } else if index == 1 {
            self.spec_set_de(value)
        } else if index == 2 {
            self.spec_set_hl(value)
        } else {
            CPU { sp: value, ..self }
        }
    }

    /// The register pair that PUSH and POP name by `index`: BC, DE, HL for 0
    /// to 2, and AF otherwise.
    pub open spec fn stacked(self, index: u8) -> u16 {
        if index == 0 {
            self.spec_bc()
        } else if index == 1 {
            self.spec_de()
        } else if index == 2 {
            self.spec_hl()
        } else {
            self.spec_af()
        }
    }

    /// The processor with the pair that POP names by `index` set to `value`.
    pub open spec fn with_stacked(self, index: u8, value: u16) -> CPU {
        if index == 0 {
            self.spec_set_bc(value)
        } else if index == 1 {
            self.spec_set_de(value)
        } else if index == 2 {
            self.spec_set_hl(value)
        } else {
            self.spec_set_af(value)
        }
    }

    /// The condition that a branch names by `index`: NZ, Z, NC for 0 to 2,
    /// and C otherwise.
    pub open spec fn condition(self, index: u8) -> bool {
        if index == 0 {
            !self.zero
        } else if index == 1 {
            self.zero
        } else if index == 2 {
            !self.carry
        } else {
            self.carry
        }
    }

    pub fn get_reg(&self, index: u8) -> (r: u8)
        ensures
            r == self.reg(index),
    {
        match index {
            0 => self.b,
            1 => self.c,
            2 => self.d,
            3 => self.e,
            4 => self.h,
            5 => self.l,
            _ => self.a,
        }
    }

    pub fn set_reg(&mut self, index: u8, value: u8)
        ensures
            *final(self) == old(self).with_reg(index, value),
    {
        *self = match index {
            0 => CPU { b: value, ..*self },
            1 => CPU { c: value, ..*self },
            2 => CPU { d: value, ..*self },
            3 => CPU { e: value, ..*self },
            4 => CPU { h: value, ..*self },
            5 => CPU { l: value, ..*self },
            _ => CPU { a: value, ..*self },
        };
    }

    pub fn get_wide(&self, index: u8) -> (r: u16)
        ensures
            r == self.wide(index),
    {
        match index {
            0 => self.bc(),
            1 => self.de(),
            2 => self.hl(),
            _ => self.sp,
        }
    }

    pub fn set_wide(&mut self, index: u8, value: u16)
        ensures
            *final(self) == old(self).with_wide(index, value),
    {
        match index {
            0 => self.set_bc(value),
            1 => self.set_de(value),
            2 => self.set_hl(value),
            _ => {
                *self = CPU { sp: value, ..*self };
            },
        }
    }

    pub fn get_stacked(&self, index: u8) -> (r: u16)
        ensures
            r == self.stacked(index),
    {
        match index {
            0 => self.bc(),
            1 => self.de(),
            2 => self.hl(),
            _ => self.af(),
        }
    }

    pub fn set_stacked(&mut self, index: u8, value: u16)
        ensures
            *final(self) == old(self).with_stacked(index, value),
    {
        match index {
            0 => self.set_bc(value),
            1 => self.set_de(value),
            2 => self.set_hl(value),
            _ => self.set_af(value),
        }
    }

    pub fn test_condition(&self, index: u8) -> (r: bool)
        ensures
            r == self.condition(index),
    {
        match index {
            0 => !self.zero,
            1 => self.zero,
            2 => !self.carry,
            _ => self.carry,
        }
    }
}

impl Machine {
    /// The 8-bit operand that an instruction names by `index`: the byte at
    /// HL for 6, a register otherwise.
    pub open spec fn operand8(self, index: u8) -> u8 {
        if index == 6 {
            self.peek(self.cpu.spec_hl())
        } else {
            self.cpu.reg(index)
        }
    }

    /// The machine after that operand was read: the byte at HL costs a
    /// cycle, a register none.
    pub open spec fn after_operand8(self, index: u8) -> Machine {
        if index == 6 {
            self.tick(1)
        } else {
            self
        }
    }

    /// The machine after `value` was stored in that operand: the byte at HL
    /// costs a cycle, a register none.
    pub open spec fn with_operand8(self, index: u8, value: u8) -> Machine {
        if index == 6 {
            self.store(self.cpu.spec_hl(), value)
        } else {
            self.with_cpu(self.cpu.with_reg(index, value))
        }
    }
}

impl CPU {
    pub fn get_operand8(&self, bus: &mut Bus, index: u8) -> (r: u8)
        requires
            machine(*self, *old(bus)).room(1),
        ensures
            machine(*self, *final(bus)).keeps(machine(*self, *old(bus)), 1),
            r == machine(*self, *old(bus)).operand8(index),
            machine(*self, *final(bus)) == machine(*self, *old(bus)).after_operand8(index),
    {
        if index == 6 {
            self.read_hl(bus)
        } else {
            self.get_reg(index)
        }
    }

    pub fn set_operand8(&mut self, bus: &mut Bus, index: u8, value: u8)
        requires
            machine(*old(self), *old(bus)).room(1),
        ensures
            machine(*final(self), *final(bus)).keeps(machine(*old(self), *old(bus)), 1),
            machine(*final(self), *final(bus)) == machine(*old(self), *old(bus)).with_operand8(
                index,
                value,
            ),
    {
        if index == 6 {
            self.write_hl(bus, value);
        } else {
            self.set_reg(index, value);
        }
    }
}

} // verus!
