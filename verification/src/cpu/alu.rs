use crate::cpu::{high_byte_of, low_byte_of, pair_of, CPU};
use vstd::prelude::*;

verus! {

/// The carry flag as the number that ADC, SBC and the rotations through
/// carry take in.
pub open spec fn carry_in(carry: bool) -> u8 {
    if carry {
        1u8
    } else {
        0u8
    }
}

fn carry_of(carry: bool) -> (r: u8)
    ensures
        r == carry_in(carry),
{
    if carry {
        1
    } else {
        0
    }
}

/// `value` rotated left by one bit.
pub open spec fn rotated_left(value: u8) -> u8 {
    (value << 1) | (value >> 7)
}

/// `value` rotated right by one bit.
pub open spec fn rotated_right(value: u8) -> u8 {
    (value >> 1) | (value << 7)
}

/// `value` with its two nibbles exchanged.
pub open spec fn swapped(value: u8) -> u8 {
    (value << 4) | (value >> 4)
}

impl CPU {
    /// The processor with the four flags set as given.
    pub open spec fn with_flags(self, zero: bool, sub: bool, halfcarry: bool, carry: bool) -> CPU {
        CPU { zero, sub, halfcarry, carry, ..self }
    }

    /// ADD A,v: A takes the sum modulo 256; Z tells that A is now 0, H that
    /// bit 3 carried into bit 4, C that the sum passed 255; N is clear.
    pub open spec fn spec_add_u8(self, value: u8) -> CPU {
        let a = self.a as u16;
        let v = value as u16;
        let res = (a + v) as u16;
        CPU {
            a: (res % 0x100) as u8,
            zero: res % 0x100 == 0,
            sub: false,
            halfcarry: (a ^ v ^ res) & 0x10 != 0,
            carry: res > 0xFF,
            ..self
        }
    }

    pub fn add_u8(&mut self, value: u8)
        ensures
            *final(self) == old(self).spec_add_u8(value),
    {
        let a: u16 = self.a as u16;
        let v: u16 = value as u16;
        let res: u16 = a + v;
        *self = CPU {
            a: (res % 0x100) as u8,
            zero: res % 0x100 == 0,
            sub: false,
            halfcarry: (a ^ v ^ res) & 0x10 != 0,
            carry: res > 0xFF,
            ..*self
        };
    }

    /// ADC A,v: as ADD, with the carry flag added in, both to the sum and to
    /// the sum of the low nibbles that H is taken from.
    pub open spec fn spec_adc_u8(self, value: u8) -> CPU {
        let c = carry_in(self.carry) as u16;
        let res = (self.a + value + c) as u16;
        let nibbles = ((self.a & 0xF) as u16 + (value & 0xF) as u16 + c) as u16;
        CPU {
            a: (res % 0x100) as u8,
            zero: res % 0x100 == 0,
            sub: false,
            halfcarry: nibbles & 0x10 != 0,
            carry: res > 0xFF,
            ..self
        }
    }

    pub fn adc_u8(&mut self, value: u8)
        ensures
            *final(self) == old(self).spec_adc_u8(value),
    {
        let c: u16 = carry_of(self.carry) as u16;
        let res: u16 = (self.a as u16) + (value as u16) + c;
        let nibbles: u16 = ((self.a & 0xF) as u16) + ((value & 0xF) as u16) + c;
        *self = CPU {
            a: (res % 0x100) as u8,
            zero: res % 0x100 == 0,
            sub: false,
            halfcarry: nibbles & 0x10 != 0,
            carry: res > 0xFF,
            ..*self
        };
    }

    /// CP A,v: the flags of the subtraction A - v, with A left as it is.
    /// Z tells that the two are equal, H that the low nibble borrowed, C that
    /// A is the smaller; N is set.
    pub open spec fn spec_cp_u8(self, value: u8) -> CPU {
        CPU {
            zero: self.a == value,
            sub: true,
            halfcarry: (self.a & 0xF) < (value & 0xF),
            carry: self.a < value,
            ..self
        }
    }

    pub fn cp_u8(&mut self, value: u8)
        ensures
            *final(self) == old(self).spec_cp_u8(value),
    {
        *self = CPU {
            zero: self.a == value,
            sub: true,
            halfcarry: (self.a & 0xF) < (value & 0xF),
            carry: self.a < value,
            ..*self
        };
    }

    /// SUB A,v: the flags of CP, and A takes the difference modulo 256.
    pub open spec fn spec_sub_u8(self, value: u8) -> CPU {
        CPU { a: self.a.wrapping_sub(value), ..self.spec_cp_u8(value) }
    }

    pub fn sub_u8(&mut self, value: u8)
        ensures
            *final(self) == old(self).spec_sub_u8(value),
    {
        *self = CPU {
            a: self.a.wrapping_sub(value),
            zero: self.a == value,
            sub: true,
            halfcarry: (self.a & 0xF) < (value & 0xF),
            carry: self.a < value,
            ..*self
        };
    }

    /// SBC A,v: the subtraction A - v - carry, done in 16 bits. A takes the
    /// low byte of the difference; H is bit 4 of A xor v xor the difference,
    /// C tells that the subtraction borrowed; N is set.
    pub open spec fn spec_sbc_u8(self, value: u8) -> CPU {
        let a = self.a as u16;
        let v = value as u16;
        let res = a.wrapping_sub(v).wrapping_sub(carry_in(self.carry) as u16);
        CPU {
            a: (res % 0x100) as u8,
            zero: res % 0x100 == 0,
            sub: true,
            halfcarry: (a ^ v ^ res) & 0x10 != 0,
            carry: res > 0xFF,
            ..self
        }
    }

    pub fn sbc_u8(&mut self, value: u8)
        ensures
            *final(self) == old(self).spec_sbc_u8(value),
    {
        let a: u16 = self.a as u16;
        let v: u16 = value as u16;
        let res: u16 = a.wrapping_sub(v).wrapping_sub(carry_of(self.carry) as u16);
        *self = CPU {
            a: (res % 0x100) as u8,
            zero: res % 0x100 == 0,
            sub: true,
            halfcarry: (a ^ v ^ res) & 0x10 != 0,
            carry: res > 0xFF,
            ..*self
        };
    }

    /// The number that INC stores for `value`.
    pub open spec fn spec_inc_value(value: u8) -> u8 {
        value.wrapping_add(1)
    }

    /// INC on `value`: Z tells that the result is 0, H that the low nibble
    /// overflowed; N is clear and C is left alone.
    pub open spec fn spec_inc_u8(self, value: u8) -> CPU {
        CPU { zero: value == 0xFF, sub: false, halfcarry: (value & 0xF) == 0xF, ..self }
    }

    pub fn inc_u8(&mut self, value: u8) -> (r: u8)
        ensures
            *final(self) == old(self).spec_inc_u8(value),
            r == CPU::spec_inc_value(value),
    {
        *self = CPU { zero: value == 0xFF, sub: false, halfcarry: (value & 0xF) == 0xF, ..*self };
        value.wrapping_add(1)
    }

    /// The number that DEC stores for `value`.
    pub open spec fn spec_dec_value(value: u8) -> u8 {
        value.wrapping_sub(1)
    }

    /// DEC on `value`: Z tells that the result is 0, H that the low nibble
    /// borrowed; N is set and C is left alone.
    pub open spec fn spec_dec_u8(self, value: u8) -> CPU {
        CPU { zero: value == 1, sub: true, halfcarry: (value & 0xF) == 0, ..self }
    }

    pub fn dec_u8(&mut self, value: u8) -> (r: u8)
        ensures
            *final(self) == old(self).spec_dec_u8(value),
            r == CPU::spec_dec_value(value),
    {
        *self = CPU { zero: value == 1, sub: true, halfcarry: (value & 0xF) == 0, ..*self };
        value.wrapping_sub(1)
    }

    /// The flags and HL after ADD HL,v: HL takes the sum modulo 65536; H
    /// tells that bit 11 carried into bit 12, C that the sum passed 65535;
    /// N is clear and Z is left alone.
    pub open spec fn spec_add_hl(self, value: u16) -> CPU {
        let a = self.spec_hl() as u32;
        let v = value as u32;
        let res = (a + v) as u32;
        CPU {
            sub: false,
            halfcarry: (a ^ v ^ res) & 0x1000 != 0,
            carry: res > 0xFFFF,
            ..self.spec_set_hl((res % 0x10000) as u16)
        }
    }

    pub fn add_hl(&mut self, value: u16)
        ensures
            *final(self) == old(self).spec_add_hl(value),
    {
        let a: u32 = self.hl() as u32;
        let v: u32 = value as u32;
        let res: u32 = a + v;
        let sum: u16 = (res % 0x10000) as u16;
        *self = CPU {
            h: high_byte_of(sum),
            l: low_byte_of(sum),
            sub: false,
            halfcarry: (a ^ v ^ res) & 0x1000 != 0,
            carry: res > 0xFFFF,
            ..*self
        };
    }

    /// XOR A,v: Z tells that A is now 0; the other flags are clear.
    pub open spec fn spec_xor_u8(self, value: u8) -> CPU {
        CPU { a: self.a ^ value, ..self.with_flags((self.a ^ value) == 0, false, false, false) }
    }

    pub fn xor_u8(&mut self, value: u8)
        ensures
            *final(self) == old(self).spec_xor_u8(value),
    {
        let a: u8 = self.a ^ value;
        *self = CPU { a, zero: a == 0, sub: false, halfcarry: false, carry: false, ..*self };
    }

    /// AND A,v: Z tells that A is now 0, H is set; N and C are clear.
    pub open spec fn spec_and_u8(self, value: u8) -> CPU {
        CPU { a: self.a & value, ..self.with_flags((self.a & value) == 0, false, true, false) }
    }

    pub fn and_u8(&mut self, value: u8)
        ensures
            *final(self) == old(self).spec_and_u8(value),
    {
        let a: u8 = self.a & value;
        *self = CPU { a, zero: a == 0, sub: false, halfcarry: true, carry: false, ..*self };
    }

    /// OR A,v: Z tells that A is now 0; the other flags are clear.
    pub open spec fn spec_or_u8(self, value: u8) -> CPU {
        CPU { a: self.a | value, ..self.with_flags((self.a | value) == 0, false, false, false) }
    }

    pub fn or_u8(&mut self, value: u8)
        ensures
            *final(self) == old(self).spec_or_u8(value),
    {
        let a: u8 = self.a | value;
        *self = CPU { a, zero: a == 0, sub: false, halfcarry: false, carry: false, ..*self };
    }

    /// The number that RL stores: `value` moved left by one bit, with the
    /// carry flag in bit 0.
    pub open spec fn spec_rl_value(self, value: u8) -> u8 {
        (value << 1) | carry_in(self.carry)
    }

    /// The flags after a rotation or shift that stores `result` and pushes
    /// the bit `ejected` out: Z from the result, C the ejected bit, N and H clear.
    pub open spec fn spec_shift_flags(self, result: u8, ejected: bool) -> CPU {
        self.with_flags(result == 0, false, false, ejected)
    }

    pub open spec fn spec_rl_u8(self, value: u8) -> CPU {
        self.spec_shift_flags(self.spec_rl_value(value), (value & 0x80) != 0)
    }

    pub fn rl_u8(&mut self, value: u8) -> (r: u8)
        ensures
            *final(self) == old(self).spec_rl_u8(value),
            r == old(self).spec_rl_value(value),
    {
        let result: u8 = (value << 1) | carry_of(self.carry);
        *self = CPU {
            zero: result == 0,
            sub: false,
            halfcarry: false,
            carry: (value & 0x80) != 0,
            ..*self
        };
        result
    }

    pub open spec fn spec_rlc_u8(self, value: u8) -> CPU {
        self.spec_shift_flags(rotated_left(value), (value & 0x80) != 0)
    }

    pub fn rlc_u8(&mut self, value: u8) -> (r: u8)
        ensures
            *final(self) == old(self).spec_rlc_u8(value),
            r == rotated_left(value),
    {
        let result: u8 = (value << 1) | (value >> 7);
        *self = CPU {
            zero: result == 0,
            sub: false,
            halfcarry: false,
            carry: (value & 0x80) != 0,
            ..*self
        };
        result
    }

    /// The number that RR stores: `value` moved right by one bit, with the
    /// carry flag in bit 7.
    pub open spec fn spec_rr_value(self, value: u8) -> u8 {
        (value >> 1) | (carry_in(self.carry) << 7)
    }

    pub open spec fn spec_rr_u8(self, value: u8) -> CPU {
        self.spec_shift_flags(self.spec_rr_value(value), (value & 0x01) != 0)
    }

    pub fn rr_u8(&mut self, value: u8) -> (r: u8)
        ensures
            *final(self) == old(self).spec_rr_u8(value),
            r == old(self).spec_rr_value(value),
    {
        let result: u8 = (value >> 1) | (carry_of(self.carry) << 7);
        *self = CPU {
            zero: result == 0,
            sub: false,
            halfcarry: false,
            carry: (value & 0x01) != 0,
            ..*self
        };
        result
    }

    pub open spec fn spec_rrc_u8(self, value: u8) -> CPU {
        self.spec_shift_flags(rotated_right(value), (value & 0x01) != 0)
    }

    pub fn rrc_u8(&mut self, value: u8) -> (r: u8)
        ensures
            *final(self) == old(self).spec_rrc_u8(value),
            r == rotated_right(value),
    {
        let result: u8 = (value >> 1) | (value << 7);
        *self = CPU {
            zero: result == 0,
            sub: false,
            halfcarry: false,
            carry: (value & 0x01) != 0,
            ..*self
        };
        result
    }

    /// SLA stores `value << 1` and pushes bit 7 out.
    pub open spec fn spec_sla_u8(self, value: u8) -> CPU {
        self.spec_shift_flags(value << 1, (value & 0x80) != 0)
    }

    pub fn sla_u8(&mut self, value: u8) -> (r: u8)
        ensures
            *final(self) == old(self).spec_sla_u8(value),
            r == value << 1,
    {
        let result: u8 = value << 1;
        *self = CPU {
            zero: result == 0,
            sub: false,
            halfcarry: false,
            carry: (value & 0x80) != 0,
            ..*self
        };
        result
    }

    /// SRL stores `value >> 1` and pushes bit 0 out.
    pub open spec fn spec_srl_u8(self, value: u8) -> CPU {
        self.spec_shift_flags(value >> 1, (value & 0x01) != 0)
    }

    pub fn srl_u8(&mut self, value: u8) -> (r: u8)
        ensures
            *final(self) == old(self).spec_srl_u8(value),
            r == value >> 1,
    {
        let result: u8 = value >> 1;
        *self = CPU {
            zero: result == 0,
            sub: false,
            halfcarry: false,
            carry: (value & 0x01) != 0,
            ..*self
        };
        result
    }

    /// The number that SRA stores: `value >> 1` with bit 7 kept.
    pub open spec fn spec_sra_value(value: u8) -> u8 {
        (value >> 1) | (value & 0x80)
    }

    pub open spec fn spec_sra_u8(self, value: u8) -> CPU {
        self.spec_shift_flags(CPU::spec_sra_value(value), (value & 0x01) != 0)
    }

    pub fn sra_u8(&mut self, value: u8) -> (r: u8)
        ensures
            *final(self) == old(self).spec_sra_u8(value),
            r == CPU::spec_sra_value(value),
    {
        let result: u8 = (value >> 1) | (value & 0x80);
        *self = CPU {
            zero: result == 0,
            sub: false,
            halfcarry: false,
            carry: (value & 0x01) != 0,
            ..*self
        };
        result
    }

    /// SWAP: Z from the result, the other flags clear.
    pub open spec fn spec_swap_u8(self, value: u8) -> CPU {
        self.with_flags(swapped(value) == 0, false, false, false)
    }

    pub fn swap_u8(&mut self, value: u8) -> (r: u8)
        ensures
            *final(self) == old(self).spec_swap_u8(value),
            r == swapped(value),
    {
        let result: u8 = (value << 4) | (value >> 4);
        *self = CPU { zero: result == 0, sub: false, halfcarry: false, carry: false, ..*self };
        result
    }

    /// RES b,v: `value` with bit `bit` clear. No flag changes.
    pub open spec fn spec_res_u8(bit: u8, value: u8) -> u8 {
        value & !(1u8 << bit)
    }

    pub fn res_u8(&self, bit: u8, value: u8) -> (r: u8)
        requires
            bit < 8,
        ensures
            r == CPU::spec_res_u8(bit, value),
    {
        value & !(1u8 << bit)
    }

    /// SET b,v: `value` with bit `bit` set. No flag changes.
    pub open spec fn spec_set_u8(bit: u8, value: u8) -> u8 {
        value | (1u8 << bit)
    }

    pub fn set_u8(&self, bit: u8, value: u8) -> (r: u8)
        requires
            bit < 8,
        ensures
            r == CPU::spec_set_u8(bit, value),
    {
        value | (1u8 << bit)
    }

    /// BIT b,v: Z tells that bit `bit` of `value` is clear; N is clear, H
    /// is set and C is left alone.
    pub open spec fn spec_bit_u8(self, bit: u8, value: u8) -> CPU {
        CPU { zero: (value & (1u8 << bit)) == 0, sub: false, halfcarry: true, ..self }
    }

    pub fn bit_u8(&mut self, bit: u8, value: u8)
        requires
            bit < 8,
        ensures
            *final(self) == old(self).spec_bit_u8(bit, value),
    {
        *self = CPU { zero: (value & (1u8 << bit)) == 0, sub: false, halfcarry: true, ..*self };
    }

    /// CPL: A with every bit turned; N and H set.
    pub open spec fn spec_cpl(self) -> CPU {
        CPU { a: self.a ^ 0xFF, sub: true, halfcarry: true, ..self }
    }

    pub fn cpl(&mut self)
        ensures
            *final(self) == old(self).spec_cpl(),
    {
        *self = CPU { a: self.a ^ 0xFF, sub: true, halfcarry: true, ..*self };
    }

    /// SCF: C set; N and H clear.
    pub open spec fn spec_scf(self) -> CPU {
        CPU { sub: false, halfcarry: false, carry: true, ..self }
    }

    pub fn scf(&mut self)
        ensures
            *final(self) == old(self).spec_scf(),
    {
        *self = CPU { sub: false, halfcarry: false, carry: true, ..*self };
    }

    /// CCF: C turned; N and H clear.
    pub open spec fn spec_ccf(self) -> CPU {
        CPU { sub: false, halfcarry: false, carry: !self.carry, ..self }
    }

    pub fn ccf(&mut self)
        ensures
            *final(self) == old(self).spec_ccf(),
    {
        *self = CPU { sub: false, halfcarry: false, carry: !self.carry, ..*self };
    }
}

} // verus!
