use crate::bus::Bus;
use crate::cpu::access::{machine, relative, relative_of, Machine};
use crate::cpu::CPU;
use vstd::prelude::*;

verus! {

impl Machine {
    /// JR e: the signed operand is added to the address behind it, if the
    /// branch is taken.
    #[verifier::opaque]
    pub open spec fn spec_jr(self, taken: bool) -> Machine {
        let m = self.advance(1);
        if taken {
            m.jump(relative(m.cpu.pc, self.operand()))
        } else {
            m
        }
    }

    /// JP nn: the operand becomes the program counter, if the branch is taken.
    #[verifier::opaque]
    pub open spec fn spec_jp(self, taken: bool) -> Machine {
        let m = self.advance(2);
        if taken {
            m.jump(self.operand16())
        } else {
            m
        }
    }

    /// CALL nn: the address behind the operand is pushed and the operand
    /// becomes the program counter, if the branch is taken.
    #[verifier::opaque]
    pub open spec fn spec_call(self, taken: bool) -> Machine {
        let m = self.advance(2);
        if taken {
            m.push(m.cpu.pc).jump(self.operand16())
        } else {
            m
        }
    }

    /// RET: the program counter is popped.
    #[verifier::opaque]
    pub open spec fn spec_ret(self) -> Machine {
        self.pop().jump(self.top())
    }

    /// RET cc: one cycle to test the condition, then RET if it holds.
    #[verifier::opaque]
    pub open spec fn spec_ret_cond(self, taken: bool) -> Machine {
        let m = self.tick(1);
        if taken {
            m.spec_ret()
        } else {
            m
        }
    }

    /// RST n: the program counter is pushed and set to `addr`.
    #[verifier::opaque]
    pub open spec fn spec_rst(self, addr: u16) -> Machine {
        self.push(self.cpu.pc).jump(addr)
    }
}

impl CPU {
    pub fn jr(&mut self, bus: &mut Bus)
        requires
            machine(*old(self), *old(bus)).room(2),
        ensures
            machine(*final(self), *final(bus)).keeps(machine(*old(self), *old(bus)), 2),
            machine(*final(self), *final(bus)) == machine(*old(self), *old(bus)).spec_jr(true),
    {
        reveal(Machine::spec_jr);
        self.jr_cond(bus, true);
    }

    pub fn jr_cond(&mut self, bus: &mut Bus, cond: bool)
        requires
            machine(*old(self), *old(bus)).room(2),
        ensures
            machine(*final(self), *final(bus)).keeps(machine(*old(self), *old(bus)), 2),
            machine(*final(self), *final(bus)) == machine(*old(self), *old(bus)).spec_jr(cond),
    {
        reveal(Machine::spec_jr);
        let value: u8 = self.next_u8(bus);
        if cond {
            let target: u16 = relative_of(self.pc, value);
            self.set_pc(bus, target);
        }
    }

    pub fn jp_cond(&mut self, bus: &mut Bus, cond: bool)
        requires
            machine(*old(self), *old(bus)).room(3),
        ensures
            machine(*final(self), *final(bus)).keeps(machine(*old(self), *old(bus)), 3),
            machine(*final(self), *final(bus)) == machine(*old(self), *old(bus)).spec_jp(cond),
    {
        reveal(Machine::spec_jp);
        let addr: u16 = self.next_u16(bus);
        if cond {
            self.set_pc(bus, addr);
        }
    }

    pub fn call(&mut self, bus: &mut Bus)
        requires
            machine(*old(self), *old(bus)).room(5),
        ensures
            machine(*final(self), *final(bus)).keeps(machine(*old(self), *old(bus)), 5),
            machine(*final(self), *final(bus)) == machine(*old(self), *old(bus)).spec_call(true),
    {
        reveal(Machine::spec_call);
        self.call_cond(bus, true);
    }

    pub fn call_cond(&mut self, bus: &mut Bus, cond: bool)
        requires
            machine(*old(self), *old(bus)).room(5),
        ensures
            machine(*final(self), *final(bus)).keeps(machine(*old(self), *old(bus)), 5),
            machine(*final(self), *final(bus)) == machine(*old(self), *old(bus)).spec_call(cond),
    {
        reveal(Machine::spec_call);
        let addr: u16 = self.next_u16(bus);
        if cond {
            let pc: u16 = self.pc;
            self.push(bus, pc);
            self.set_pc(bus, addr);
        }
    }

    pub fn rst(&mut self, bus: &mut Bus, addr: u16)
        requires
            machine(*old(self), *old(bus)).room(3),
        ensures
            machine(*final(self), *final(bus)).keeps(machine(*old(self), *old(bus)), 3),
            machine(*final(self), *final(bus)) == machine(*old(self), *old(bus)).spec_rst(addr),
    {
        reveal(Machine::spec_rst);
        let pc: u16 = self.pc;
        self.push(bus, pc);
        self.set_pc(bus, addr);
    }

    pub fn ret(&mut self, bus: &mut Bus)
        requires
            machine(*old(self), *old(bus)).room(3),
        ensures
            machine(*final(self), *final(bus)).keeps(machine(*old(self), *old(bus)), 3),
            machine(*final(self), *final(bus)) == machine(*old(self), *old(bus)).spec_ret(),
    {
        reveal(Machine::spec_ret);
        let pc: u16 = self.pop(bus);
        self.set_pc(bus, pc);
    }

    pub fn ret_cond(&mut self, bus: &mut Bus, cond: bool)
        requires
            machine(*old(self), *old(bus)).room(4),
        ensures
            machine(*final(self), *final(bus)).keeps(machine(*old(self), *old(bus)), 4),
            machine(*final(self), *final(bus)) == machine(*old(self), *old(bus)).spec_ret_cond(
                cond,
            ),
    {
        reveal(Machine::spec_ret_cond);
        bus.delay(1);
        if cond {
            self.ret(bus);
        }
    }
}

} // verus!
