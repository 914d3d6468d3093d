use crate::bus::Bus;
use crate::cpu::access::{machine, Machine};
use crate::cpu::decode::known;
use crate::cpu::CPU;
use crate::error::GbError;
use vstd::prelude::*;

verus! {

impl Machine {
    /// The machine after interrupts were looked at, which happens after
    /// every instruction. A source that is both requested and enabled ends a
    /// halt. If interrupts are enabled as well, the program counter is
    /// pushed and set to the vector of the source, interrupts are disabled,
    /// and the request is withdrawn.
    pub open spec fn spec_interrupt(self) -> Machine {
        match self.bus.spec_irq() {
            Some(vector) => {
                let m = self.with_cpu(CPU { halted: false, ..self.cpu });
                if self.cpu.ime {
                    let n = m.push(m.cpu.pc).jump(vector);
                    Machine { cpu: CPU { ime: false, ..n.cpu }, bus: n.bus.spec_ack_irq() }
                } else {
                    m
                }
            },
            None => self,
        }
    }

    /// What a step reports: an error if the processor is running and the
    /// next opcode names no instruction.
    pub open spec fn spec_step_status(self) -> Result<(), GbError> {
        if self.cpu.halted {
            Ok(())
        } else {
            self.spec_status()
        }
    }

    /// The machine after one step. A running processor carries out exactly
    /// one instruction; a halted one idles for one cycle. Then interrupts are
    /// looked at, unless the opcode named no instruction.
    #[verifier::opaque]
    pub open spec fn spec_step(self) -> Machine {
        if self.cpu.halted {
            self.tick(1).spec_interrupt()
        } else if known(self.operand()) {
            self.spec_run_instruction().spec_interrupt()
        } else {
            self.spec_run_instruction()
        }
    }
}

impl CPU {
    fn wake(&mut self)
        ensures
            *final(self) == (CPU { halted: false, ..*old(self) }),
    {
        *self = CPU { halted: false, ..*self };
    }

    fn enter_handler(&mut self, bus: &mut Bus, vector: u16)
        requires
            machine(*old(self), *old(bus)).room(3),
        ensures
            machine(*final(self), *final(bus)).keeps(machine(*old(self), *old(bus)), 3),
            ({
                let n = machine(*old(self), *old(bus)).push(old(self).pc).jump(vector);
                machine(*final(self), *final(bus)) == (Machine {
                    cpu: CPU { ime: false, ..n.cpu },
                    bus: n.bus.spec_ack_irq(),
                })
            }),
    {
        let pc: u16 = self.pc;
        self.push(bus, pc);
        self.set_pc(bus, vector);
        *self = CPU { ime: false, ..*self };
        bus.ack_irq();
    }

    /// Looks at the interrupts, as is done after every instruction.
    pub fn interrupt(&mut self, bus: &mut Bus)
        requires
            machine(*old(self), *old(bus)).room(3),
        ensures
            machine(*final(self), *final(bus)).keeps(machine(*old(self), *old(bus)), 3),
            machine(*final(self), *final(bus)) == machine(*old(self), *old(bus)).spec_interrupt(),
    {
        if let Some(vector) = bus.has_irq() {
            self.wake();
            if self.ime {
                self.enter_handler(bus, vector);
            }
        }
    }

    /// One step of the processor: one instruction, or one idle cycle while
    /// halted, and then the interrupts.
    pub fn step(&mut self, bus: &mut Bus) -> (r: Result<(), GbError>)
        requires
            machine(*old(self), *old(bus)).room(9),
        ensures
            machine(*final(self), *final(bus)).keeps(machine(*old(self), *old(bus)), 9),
            machine(*final(self), *final(bus)) == machine(*old(self), *old(bus)).spec_step(),
            r == machine(*old(self), *old(bus)).spec_step_status(),
    {
        reveal(Machine::spec_step);
        if self.halted {
            bus.delay(1);
        } else {
            match self.run_instruction(bus) {
                Ok(()) => {},
                Err(e) => {
                    return Err(e);
                },
            }
        }
        self.interrupt(bus);
        Ok(())
    }
}

} // verus!
