use crate::bits::bit;
use vstd::prelude::*;

pub mod access;
pub mod alu;
pub mod control;
pub mod costs;
pub mod decode;
pub mod execute;
pub mod laws;
pub mod operand;
pub mod step;

verus! {

/// The registers of the processor.
///
/// The flags byte F is not stored: its four flags are `zero`, `sub`,
/// `halfcarry` and `carry`, which F shows in bits 7 to 4. `halted` is set
/// while the processor waits for an interrupt.
#[derive(Clone, Copy, Debug, PartialEq, Eq, Structural)]
pub struct CPU {
    pub pc: u16,
    pub sp: u16,
    pub a: u8,
    pub b: u8,
    pub c: u8,
    pub d: u8,
    pub e: u8,
    pub h: u8,
    pub l: u8,
    pub zero: bool,
    pub sub: bool,
    pub halfcarry: bool,
    pub carry: bool,
    pub ime: bool,
    pub halted: bool,
}

/// The 16-bit number with high byte `high` and low byte `low`.
pub open spec fn pair(high: u8, low: u8) -> u16 {
    (high * 0x100 + low) as u16
}

/// The high byte of a 16-bit number.
pub open spec fn high_byte(value: u16) -> u8 {
    (value / 0x100) as u8
}

/// The low byte of a 16-bit number.
pub open spec fn low_byte(value: u16) -> u8 {
    (value % 0x100) as u8
}

pub fn pair_of(high: u8, low: u8) -> (r: u16)
    ensures
        r == pair(high, low),
{
    (high as u16) * 0x100 + (low as u16)
}

pub fn high_byte_of(value: u16) -> (r: u8)
    ensures
        r == high_byte(value),
{
    (value / 0x100) as u8
}

pub fn low_byte_of(value: u16) -> (r: u8)
    ensures
        r == low_byte(value),
{
    (value % 0x100) as u8
}

impl CPU {
    /// The processor at reset: every register 0, interrupts disabled, running.
    pub open spec fn reset() -> CPU {
        CPU {
            pc: 0,
            sp: 0,
            a: 0,
            b: 0,
            c: 0,
            d: 0,
            e: 0,
            h: 0,
            l: 0,
            zero: false,
            sub: false,
            halfcarry: false,
            carry: false,
            ime: false,
            halted: false,
        }
    }

    pub fn new() -> (r: CPU)
        ensures
            r == CPU::reset(),
    {
        CPU {
            pc: 0,
            sp: 0,
            a: 0,
            b: 0,
            c: 0,
            d: 0,
            e: 0,
            h: 0,
            l: 0,
            zero: false,
            sub: false,
            halfcarry: false,
            carry: false,
            ime: false,
            halted: false,
        }
    }

    /// The flags byte: Z in bit 7, N in bit 6, H in bit 5, C in bit 4, and
    /// bits 3 to 0 clear.
    pub open spec fn spec_f(self) -> u8 {
        (bit(self.zero) * 0x80 + bit(self.sub) * 0x40 + bit(self.halfcarry) * 0x20 + bit(
            self.carry,
        ) * 0x10) as u8
    }

    pub open spec fn spec_af(self) -> u16 {
        pair(self.a, self.spec_f())
    }

    pub open spec fn spec_bc(self) -> u16 {
        pair(self.b, self.c)
    }

    pub open spec fn spec_de(self) -> u16 {
        pair(self.d, self.e)
    }

    pub open spec fn spec_hl(self) -> u16 {
        pair(self.h, self.l)
    }

    /// The processor with AF set: A takes the high byte, the flags take bits
    /// 7 to 4 of the low byte, and bits 3 to 0 are lost.
    pub open spec fn spec_set_af(self, value: u16) -> CPU {
        CPU {
            a: high_byte(value),
            zero: (value / 0x80) % 2 == 1,
            sub: (value / 0x40) % 2 == 1,
            halfcarry: (value / 0x20) % 2 == 1,
            carry: (value / 0x10) % 2 == 1,
            ..self
        }
    }

    pub open spec fn spec_set_bc(self, value: u16) -> CPU {
        CPU { b: high_byte(value), c: low_byte(value), ..self }
    }

    pub open spec fn spec_set_de(self, value: u16) -> CPU {
        CPU { d: high_byte(value), e: low_byte(value), ..self }
    }

    pub open spec fn spec_set_hl(self, value: u16) -> CPU {
        CPU { h: high_byte(value), l: low_byte(value), ..self }
    }

    pub fn f(&self) -> (r: u8)
        ensures
            r == self.spec_f(),
    {
        let z: u8 = if self.zero {
            0x80
        } else {
            0
        };
        let n: u8 = if self.sub {
            0x40
        } else {
            0
        };
        let h: u8 = if self.halfcarry {
            0x20
        } else {
            0
        };
        let c: u8 = if self.carry {
            0x10
        } else {
            0
        };
        z + n + h + c
    }

    pub fn af(&self) -> (r: u16)
        ensures
            r == self.spec_af(),
    {
        pair_of(self.a, self.f())
    }

    pub fn bc(&self) -> (r: u16)
        ensures
            r == self.spec_bc(),
    {
        pair_of(self.b, self.c)
    }

    pub fn de(&self) -> (r: u16)
        ensures
            r == self.spec_de(),
    {
        pair_of(self.d, self.e)
    }

    pub fn hl(&self) -> (r: u16)
        ensures
            r == self.spec_hl(),
    {
        pair_of(self.h, self.l)
    }

    pub fn set_af(&mut self, value: u16)
        ensures
            *final(self) == old(self).spec_set_af(value),
    {
        *self = CPU {
            a: high_byte_of(value),
            zero: (value / 0x80) % 2 == 1,
            sub: (value / 0x40) % 2 == 1,
            halfcarry: (value / 0x20) % 2 == 1,
            carry: (value / 0x10) % 2 == 1,
            ..*self
        };
    }

    pub fn set_bc(&mut self, value: u16)
        ensures
            *final(self) == old(self).spec_set_bc(value),
    {
        *self = CPU { b: high_byte_of(value), c: low_byte_of(value), ..*self };
    }

    pub fn set_de(&mut self, value: u16)
        ensures
            *final(self) == old(self).spec_set_de(value),
    {
        *self = CPU { d: high_byte_of(value), e: low_byte_of(value), ..*self };
    }

    pub fn set_hl(&mut self, value: u16)
        ensures
            *final(self) == old(self).spec_set_hl(value),
    {
        *self = CPU { h: high_byte_of(value), l: low_byte_of(value), ..*self };
    }
}

/// A register pair is its two halves and nothing more.
pub proof fn lemma_pair_halves(high: u8, low: u8, value: u16)
    ensures
        high_byte(pair(high, low)) == high,
        low_byte(pair(high, low)) == low,
        pair(high_byte(value), low_byte(value)) == value,
{
}

/// Bits 3 to 0 of the flags byte always read as zero, and setting AF from
/// what AF reads as changes nothing.
pub proof fn lemma_flags_byte(cpu: CPU)
    ensures
        cpu.spec_f() % 0x10 == 0,
        cpu.spec_af() % 0x10 == 0,
        cpu.spec_set_af(cpu.spec_af()) == cpu,
{
}

proof fn lemma_flag_bits(value: u16)
    by (bit_vector)
    ensures
        ((value / 0x80) % 2) * 0x80 + ((value / 0x40) % 2) * 0x40 + ((value / 0x20) % 2) * 0x20 + ((
        value / 0x10) % 2) * 0x10 == value % 0x100 - value % 0x10,
{
}

/// Whatever is written to AF, bits 3 to 0 read back as zero and the rest
/// reads back as written.
pub proof fn lemma_set_af_masks(cpu: CPU, value: u16)
    ensures
        cpu.spec_set_af(value).spec_af() == value - value % 0x10,
{
    lemma_flag_bits(value);
    let after = cpu.spec_set_af(value);
    assert(after.spec_f() == value % 0x100 - value % 0x10);
    assert(after.a == value / 0x100);
}

impl Default for CPU {
    fn default() -> (r: CPU)
        ensures
            r == CPU::reset(),
    {
        CPU::new()
    }
}

} // verus!
