use crate::bus::{is_ram, lemma_ram_apart_from_irq, lemma_ram_holds, Bus};
use crate::cpu::access::{machine, Machine};
use crate::cpu::alu::{rotated_left, rotated_right, swapped};
use crate::cpu::{lemma_flags_byte, lemma_pair_halves, CPU};
use vstd::prelude::*;

verus! {

/// CP compares without storing: Z tells that A equals the operand, C that
/// A is the smaller, H that the low nibble of A is the smaller; N is set,
/// and A and everything but the flags stay as they were.
pub proof fn lemma_cp(cpu: CPU, value: u8)
    ensures
        cpu.spec_cp_u8(value).zero <==> cpu.a == value,
        cpu.spec_cp_u8(value).carry <==> cpu.a < value,
        cpu.spec_cp_u8(value).halfcarry <==> (cpu.a & 0xF) < (value & 0xF),
        cpu.spec_cp_u8(value).sub,
        cpu.spec_cp_u8(value).a == cpu.a,
        cpu.spec_cp_u8(value) == cpu.with_flags(
            cpu.a == value,
            true,
            (cpu.a & 0xF) < (value & 0xF),
            cpu.a < value,
        ),
{
}

/// The instruction CP n, opcode 0xFE, does to the processor what `lemma_cp`
/// says, with the byte behind the opcode as operand; it moves the program
/// counter past both bytes, costs two cycles and writes nothing.
pub proof fn lemma_cp_immediate(m: Machine)
    requires
        m.operand() == 0xFE,
        m.room(6),
    ensures
        ({
            let value = m.peek(m.cpu.pc.wrapping_add(1));
            let after = m.spec_run_instruction();
            &&& after.cpu == (CPU { pc: m.cpu.pc.wrapping_add(2), ..m.cpu.spec_cp_u8(value) })
            &&& after.bus == m.bus.spec_delay(2)
        }),
{
    reveal(Machine::spec_alu_immediate);
}

proof fn lemma_xor_self(a: u8)
    by (bit_vector)
    ensures
        a ^ a == 0,
{
}

/// XOR of A with itself clears A: Z is set, and N, H and C are clear.
pub proof fn lemma_xor_a(cpu: CPU)
    ensures
        cpu.spec_xor_u8(cpu.a) == (CPU {
            a: 0,
            zero: true,
            sub: false,
            halfcarry: false,
            carry: false,
            ..cpu
        }),
{
    lemma_xor_self(cpu.a);
}

/// The instruction XOR A, opcode 0xAF, clears A and sets Z alone, in one cycle.
pub proof fn lemma_xor_a_instruction(m: Machine)
    requires
        m.operand() == 0xAF,
        m.room(6),
    ensures
        ({
            let after = m.spec_run_instruction();
            &&& after.cpu == (CPU {
                pc: m.cpu.pc.wrapping_add(1),
                a: 0,
                zero: true,
                sub: false,
                halfcarry: false,
                carry: false,
                ..m.cpu
            })
            &&& after.bus == m.bus.spec_delay(1)
        }),
{
    reveal(Machine::spec_alu);
    lemma_xor_self(m.cpu.a);
}

proof fn lemma_swap_bits(value: u8)
    by (bit_vector)
    ensures
        swapped(value) as u16 == (((value as u16) << 4) | ((value as u16) >> 4)) & 0xFF,
        swapped(value) == 0 <==> value == 0,
        swapped(swapped(value)) == value,
{
}

/// SWAP exchanges the nibbles: the result is `((v << 4) | (v >> 4)) & 0xFF`,
/// Z is set exactly when the operand is 0, the other flags are clear, and
/// two swaps give the operand back.
pub proof fn lemma_swap(cpu: CPU, value: u8)
    ensures
        swapped(value) as u16 == (((value as u16) << 4) | ((value as u16) >> 4)) & 0xFF,
        cpu.spec_swap_u8(value).zero <==> value == 0,
        cpu.spec_swap_u8(value) == cpu.with_flags(value == 0, false, false, false),
        swapped(swapped(value)) == value,
{
    lemma_swap_bits(value);
}

/// DEC after INC gives the number back, and INC after DEC does. Neither
/// reads or changes the carry flag: the other three flags depend on the
/// number alone.
pub proof fn lemma_inc_dec(cpu: CPU, value: u8)
    ensures
        CPU::spec_dec_value(CPU::spec_inc_value(value)) == value,
        CPU::spec_inc_value(CPU::spec_dec_value(value)) == value,
        cpu.spec_inc_u8(value) == cpu.with_flags(
            value == 0xFF,
            false,
            (value & 0xF) == 0xF,
            cpu.carry,
        ),
        cpu.spec_dec_u8(value) == cpu.with_flags(value == 1, true, (value & 0xF) == 0, cpu.carry),
        cpu.spec_inc_u8(value).spec_dec_u8(CPU::spec_inc_value(value)).carry == cpu.carry,
{
}

/// INC r followed by DEC r leaves every register as it was, the carry flag
/// too; Z, N and H are those of the DEC, which the carry flag has no part in.
pub proof fn lemma_inc_dec_register(m: Machine, index: u8)
    requires
        index != 6,
        index < 8,
    ensures
        ({
            let value = m.cpu.reg(index);
            let after = m.spec_inc(index).spec_dec(index);
            &&& after.cpu == m.cpu.with_flags(
                value == 0,
                true,
                (value.wrapping_add(1) & 0xF) == 0,
                m.cpu.carry,
            )
            &&& after.bus == m.bus
        }),
{
    reveal(Machine::spec_inc);
    reveal(Machine::spec_dec);
}

proof fn lemma_rotate_bits(a: u8)
    by (bit_vector)
    ensures
        rotated_right(rotated_left(a)) == a,
        rotated_left(rotated_right(a)) == a,
        (rotated_left(a) & 0x01 != 0) == (a & 0x80 != 0),
        (rotated_right(a) & 0x80 != 0) == (a & 0x01 != 0),
{
}

/// RLCA followed by RRCA gives A back. The carry flag holds bit 7 of A
/// after the first and still after the second; Z, N and H are clear.
pub proof fn lemma_rlca_rrca(cpu: CPU)
    ensures
        cpu.spec_rotate_a(0).carry == (cpu.a & 0x80 != 0),
        cpu.spec_rotate_a(0).spec_rotate_a(1) == (CPU {
            zero: false,
            sub: false,
            halfcarry: false,
            carry: cpu.a & 0x80 != 0,
            ..cpu
        }),
{
    lemma_rotate_bits(cpu.a);
}

/// With the stack in RAM, what was pushed is on top of the stack.
pub proof fn lemma_push_top(m: Machine, value: u16)
    requires
        m.room(2),
        is_ram(m.cpu.sp.wrapping_sub(1)),
        is_ram(m.cpu.sp.wrapping_sub(2)),
    ensures
        m.push(value).top() == value,
        m.push(value).cpu == (CPU { sp: m.cpu.sp.wrapping_sub(2), ..m.cpu }),
        m.push(value).pop().cpu == m.cpu,
{
    let sp1 = m.cpu.sp.wrapping_sub(1);
    let sp2 = m.cpu.sp.wrapping_sub(2);
    let high = crate::cpu::high_byte(value);
    let low = crate::cpu::low_byte(value);
    let b1 = m.bus.spec_delay(1).spec_write(sp1, high);
    let b2 = b1.spec_delay(1).spec_write(sp2, low);
    lemma_ram_holds(m.bus.spec_delay(1), sp1, high, sp1);
    lemma_ram_holds(b1.spec_delay(1), sp2, low, sp1);
    lemma_ram_holds(b1.spec_delay(1), sp2, low, sp2);
    lemma_pair_halves(0, 0, value);
    assert(sp2.wrapping_add(1) == sp1);
    assert(sp2.wrapping_add(2) == m.cpu.sp);
    assert(m.push(value).bus == b2);
    assert(b2.spec_read(sp2) == low);
    assert(b2.spec_read(sp1) == high);
}

/// A register pair that is set to what it holds stays as it is.
pub proof fn lemma_stacked_unchanged(cpu: CPU, index: u8)
    ensures
        cpu.with_stacked(index, cpu.stacked(index)) == cpu,
{
    lemma_pair_halves(cpu.b, cpu.c, 0);
    lemma_pair_halves(cpu.d, cpu.e, 0);
    lemma_pair_halves(cpu.h, cpu.l, 0);
    lemma_flags_byte(cpu);
}

/// PUSH rr followed at once by POP rr, with the stack in RAM, leaves the
/// pair, the stack pointer and every other register as they were. For AF
/// this holds because bits 3 to 0 of F always read as zero.
pub proof fn lemma_push_pop(m: Machine, index: u8)
    requires
        m.room(4),
        is_ram(m.cpu.sp.wrapping_sub(1)),
        is_ram(m.cpu.sp.wrapping_sub(2)),
    ensures
        m.spec_push_pair(index).spec_pop_pair(index).cpu == m.cpu,
        m.cpu.spec_af() % 0x10 == 0,
{
    reveal(Machine::spec_push_pair);
    reveal(Machine::spec_pop_pair);
    lemma_push_top(m, m.cpu.stacked(index));
    lemma_stacked_unchanged(m.cpu, index);
    lemma_flags_byte(m.cpu);
    let pushed = m.push(m.cpu.stacked(index));
    assert(pushed.cpu.stacked(index) == m.cpu.stacked(index));
    lemma_stacked_unchanged(pushed.cpu, index);
}

/// With interrupts enabled and the stack in RAM, a requested and enabled
/// VBlank interrupt is taken: the program counter is pushed and set to
/// 0x0040, interrupts are disabled, a halt ends, and the request is
/// withdrawn, so that it is not taken again until it is requested again.
pub proof fn lemma_vblank_dispatch(m: Machine)
    requires
        m.room(3),
        m.cpu.ime,
        m.bus.enable_vblank_irq,
        m.bus.ppu.vblank_irq,
        is_ram(m.cpu.sp.wrapping_sub(1)),
        is_ram(m.cpu.sp.wrapping_sub(2)),
    ensures
        ({
            let after = m.spec_interrupt();
            &&& after.cpu == (CPU {
                pc: 0x40,
                sp: m.cpu.sp.wrapping_sub(2),
                ime: false,
                halted: false,
                ..m.cpu
            })
            &&& after.top() == m.cpu.pc
            &&& !after.bus.ppu.vblank_irq
            &&& after.cycles() == m.cycles() + 3
        }),
{
    let value = m.cpu.pc;
    let sp1 = m.cpu.sp.wrapping_sub(1);
    let sp2 = m.cpu.sp.wrapping_sub(2);
    let high = crate::cpu::high_byte(value);
    let low = crate::cpu::low_byte(value);
    let b0 = m.bus.spec_delay(1);
    let b1 = b0.spec_write(sp1, high);
    let b2 = b1.spec_delay(1).spec_write(sp2, low);
    lemma_ram_holds(b0, sp1, high, sp1);
    lemma_ram_holds(b1.spec_delay(1), sp2, low, sp1);
    lemma_ram_holds(b1.spec_delay(1), sp2, low, sp2);
    lemma_ram_apart_from_irq(b0, sp1, high);
    lemma_ram_apart_from_irq(b1.spec_delay(1), sp2, low);
    crate::bus::lemma_write_keeps(b0, sp1, high);
    crate::bus::lemma_write_keeps(b1.spec_delay(1), sp2, low);
    lemma_pair_halves(0, 0, value);
    assert(sp2.wrapping_add(1) == sp1);
    let b3 = b2.spec_delay(1);
    assert(b3.spec_irq() == m.bus.spec_irq());
    let b4 = b3.spec_ack_irq();
    lemma_ram_apart_from_irq(b3, sp1, high);
    lemma_ram_apart_from_irq(b3, sp2, low);
    assert(b4.spec_read(sp2) == low);
    assert(b4.spec_read(sp1) == high);
}

} // verus!
