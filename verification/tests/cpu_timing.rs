use gback::bus::Bus;
use gback::cpu::CPU;
use gback::GbError;

/// A processor at address 0 of a boot ROM that holds `program`, with the
/// stack at the top of high RAM.
fn load(program: &[u8]) -> (CPU, Bus) {
    let mut image = [0u8; 0x100];
    image[..program.len()].copy_from_slice(program);
    let mut bus = Bus::new();
    assert_eq!(bus.load_bios(&image), Ok(()));
    let mut cpu = CPU::new();
    cpu.sp = 0xFFFE;
    (cpu, bus)
}

/// Cycles that the first instruction of `program` costs.
fn cost(program: &[u8]) -> u32 {
    let (mut cpu, mut bus) = load(program);
    cpu.set_hl(0xC000);
    assert_eq!(cpu.step(&mut bus), Ok(()));
    bus.cycles_to_spend
}

#[test]
fn nop_costs_one_cycle() {
    let (mut cpu, mut bus) = load(&[0x00]);
    assert_eq!(cpu.step(&mut bus), Ok(()));
    assert_eq!(bus.cycles_to_spend, 1);
    assert_eq!(cpu.pc, 1);
}

#[test]
fn loads_cost_their_memory_accesses() {
    assert_eq!(cost(&[0x41]), 1);
    assert_eq!(cost(&[0x7F]), 1);
    assert_eq!(cost(&[0x46]), 2);
    assert_eq!(cost(&[0x7E]), 2);
    assert_eq!(cost(&[0x70]), 2);
    assert_eq!(cost(&[0x77]), 2);
    assert_eq!(cost(&[0xEA, 0x00, 0xC0]), 4);
    assert_eq!(cost(&[0xFA, 0x00, 0xC0]), 4);
    assert_eq!(cost(&[0x06, 0x12]), 2);
    assert_eq!(cost(&[0x36, 0x12]), 3);
    assert_eq!(cost(&[0x01, 0x34, 0x12]), 3);
    assert_eq!(cost(&[0x08, 0x00, 0xC0]), 5);
    assert_eq!(cost(&[0x02]), 2);
    assert_eq!(cost(&[0x2A]), 2);
    assert_eq!(cost(&[0xE0, 0x80]), 3);
    assert_eq!(cost(&[0xF0, 0x80]), 3);
    assert_eq!(cost(&[0xE2]), 2);
    assert_eq!(cost(&[0xF8, 0x01]), 2);
    assert_eq!(cost(&[0xF9]), 2);
}

#[test]
fn every_load_between_registers_costs_one_cycle() {
    for op in 0x40..0x80u8 {
        if op == 0x76 {
            continue;
        }
        let expected = if op & 7 == 6 || (op >> 3) & 7 == 6 { 2 } else { 1 };
        assert_eq!(cost(&[op]), expected, "opcode {:02x}", op);
    }
}

#[test]
fn arithmetic_costs() {
    assert_eq!(cost(&[0x80]), 1);
    assert_eq!(cost(&[0x86]), 2);
    assert_eq!(cost(&[0xC6, 0x01]), 2);
    assert_eq!(cost(&[0x04]), 1);
    assert_eq!(cost(&[0x34]), 3);
    assert_eq!(cost(&[0x35]), 3);
    assert_eq!(cost(&[0x03]), 2);
    assert_eq!(cost(&[0x0B]), 2);
    assert_eq!(cost(&[0x09]), 2);
    assert_eq!(cost(&[0x07]), 1);
    assert_eq!(cost(&[0x2F]), 1);
    assert_eq!(cost(&[0xCB, 0x37]), 2);
    assert_eq!(cost(&[0xCB, 0x46]), 3);
    assert_eq!(cost(&[0xCB, 0x06]), 4);
    assert_eq!(cost(&[0xCB, 0x86]), 4);
    assert_eq!(cost(&[0xCB, 0xC6]), 4);
}

#[test]
fn stack_costs() {
    assert_eq!(cost(&[0xC5]), 3);
    assert_eq!(cost(&[0xF5]), 3);
    assert_eq!(cost(&[0xC1]), 3);
    assert_eq!(cost(&[0xF1]), 3);
    assert_eq!(cost(&[0xC9]), 4);
    assert_eq!(cost(&[0xD9]), 4);
    assert_eq!(cost(&[0xCD, 0x34, 0x12]), 6);
    assert_eq!(cost(&[0xC7]), 4);
    assert_eq!(cost(&[0xC3, 0x34, 0x12]), 4);
    assert_eq!(cost(&[0x18, 0x05]), 3);
    assert_eq!(cost(&[0xE9]), 1);
}

#[test]
fn jr_taken_costs_one_cycle_more() {
    let (mut cpu, mut bus) = load(&[0x20, 0x05]);
    cpu.zero = false;
    assert_eq!(cpu.step(&mut bus), Ok(()));
    assert_eq!(bus.cycles_to_spend, 3);
    assert_eq!(cpu.pc, 0x0007);

    let (mut cpu, mut bus) = load(&[0x20, 0x05]);
    cpu.zero = true;
    assert_eq!(cpu.step(&mut bus), Ok(()));
    assert_eq!(bus.cycles_to_spend, 2);
    assert_eq!(cpu.pc, 0x0002);
}

#[test]
fn jr_conditions() {
    for (op, zero, carry, taken) in [
        (0x20u8, false, false, true),
        (0x20, true, false, false),
        (0x28, true, false, true),
        (0x28, false, false, false),
        (0x30, false, false, true),
        (0x30, false, true, false),
        (0x38, false, true, true),
        (0x38, false, false, false),
    ] {
        let (mut cpu, mut bus) = load(&[op, 0x10]);
        cpu.zero = zero;
        cpu.carry = carry;
        assert_eq!(cpu.step(&mut bus), Ok(()));
        assert_eq!(cpu.pc, if taken { 0x12 } else { 0x02 }, "opcode {:02x}", op);
        assert_eq!(bus.cycles_to_spend, if taken { 3 } else { 2 });
    }
}

#[test]
fn jr_goes_backwards_and_wraps() {
    let (mut cpu, mut bus) = load(&[0x18, 0xFE]);
    assert_eq!(cpu.step(&mut bus), Ok(()));
    assert_eq!(cpu.pc, 0x0000);

    let (mut cpu, mut bus) = load(&[0x18, 0x80]);
    assert_eq!(cpu.step(&mut bus), Ok(()));
    assert_eq!(cpu.pc, 0xFF82);

    let (mut cpu, mut bus) = load(&[0x18, 0x7F]);
    assert_eq!(cpu.step(&mut bus), Ok(()));
    assert_eq!(cpu.pc, 0x0081);
}

#[test]
fn jp_taken_costs_one_cycle_more() {
    let (mut cpu, mut bus) = load(&[0xC2, 0x34, 0x12]);
    cpu.zero = false;
    assert_eq!(cpu.step(&mut bus), Ok(()));
    assert_eq!(bus.cycles_to_spend, 4);
    assert_eq!(cpu.pc, 0x1234);

    let (mut cpu, mut bus) = load(&[0xC2, 0x34, 0x12]);
    cpu.zero = true;
    assert_eq!(cpu.step(&mut bus), Ok(()));
    assert_eq!(bus.cycles_to_spend, 3);
    assert_eq!(cpu.pc, 0x0003);
}

#[test]
fn call_taken_pushes_the_return_address() {
    let (mut cpu, mut bus) = load(&[0xDC, 0x34, 0x12]);
    cpu.carry = true;
    assert_eq!(cpu.step(&mut bus), Ok(()));
    assert_eq!(bus.cycles_to_spend, 6);
    assert_eq!(cpu.pc, 0x1234);
    assert_eq!(cpu.sp, 0xFFFC);
    assert_eq!(bus.read_u8(0xFFFC), 0x03);
    assert_eq!(bus.read_u8(0xFFFD), 0x00);

    let (mut cpu, mut bus) = load(&[0xDC, 0x34, 0x12]);
    cpu.carry = false;
    assert_eq!(cpu.step(&mut bus), Ok(()));
    assert_eq!(bus.cycles_to_spend, 3);
    assert_eq!(cpu.pc, 0x0003);
    assert_eq!(cpu.sp, 0xFFFE);
}

#[test]
fn ret_cond_always_spends_the_test_cycle() {
    let (mut cpu, mut bus) = load(&[0xC8]);
    cpu.zero = false;
    assert_eq!(cpu.step(&mut bus), Ok(()));
    assert_eq!(bus.cycles_to_spend, 2);
    assert_eq!(cpu.pc, 0x0001);

    let (mut cpu, mut bus) = load(&[0xC8]);
    cpu.zero = true;
    cpu.push(&mut bus, 0x4321);
    bus.cycles_to_spend = 0;
    assert_eq!(cpu.step(&mut bus), Ok(()));
    assert_eq!(bus.cycles_to_spend, 5);
    assert_eq!(cpu.pc, 0x4321);
    assert_eq!(cpu.sp, 0xFFFE);
}

#[test]
fn call_then_ret_comes_back() {
    let mut program = [0u8; 0x20];
    program[0] = 0xCD;
    program[1] = 0x10;
    program[2] = 0x00;
    program[0x10] = 0xC9;
    let (mut cpu, mut bus) = load(&program);
    assert_eq!(cpu.step(&mut bus), Ok(()));
    assert_eq!(cpu.pc, 0x0010);
    assert_eq!(cpu.sp, 0xFFFC);
    assert_eq!(cpu.step(&mut bus), Ok(()));
    assert_eq!(cpu.pc, 0x0003);
    assert_eq!(cpu.sp, 0xFFFE);
    assert_eq!(bus.cycles_to_spend, 10);
}

#[test]
fn reti_enables_interrupts() {
    let (mut cpu, mut bus) = load(&[0xD9]);
    cpu.push(&mut bus, 0x0150);
    assert_eq!(cpu.step(&mut bus), Ok(()));
    assert_eq!(cpu.pc, 0x0150);
    assert!(cpu.ime);
}

#[test]
fn rst_jumps_to_its_vector() {
    for (op, vector) in [
        (0xC7u8, 0x00u16),
        (0xCF, 0x08),
        (0xD7, 0x10),
        (0xDF, 0x18),
        (0xE7, 0x20),
        (0xEF, 0x28),
        (0xF7, 0x30),
        (0xFF, 0x38),
    ] {
        let (mut cpu, mut bus) = load(&[0x00, op]);
        assert_eq!(cpu.step(&mut bus), Ok(()));
        assert_eq!(cpu.step(&mut bus), Ok(()));
        assert_eq!(cpu.pc, vector);
        assert_eq!(cpu.sp, 0xFFFC);
        assert_eq!(bus.read_u8(0xFFFC), 0x02);
        assert_eq!(bus.read_u8(0xFFFD), 0x00);
    }
}

#[test]
fn jp_hl_costs_no_cycle_of_its_own() {
    let (mut cpu, mut bus) = load(&[0xE9]);
    cpu.set_hl(0x4000);
    assert_eq!(cpu.step(&mut bus), Ok(()));
    assert_eq!(cpu.pc, 0x4000);
    assert_eq!(bus.cycles_to_spend, 1);
}

#[test]
fn push_then_pop_leaves_the_pair() {
    for (push, pop) in [(0xC5u8, 0xC1u8), (0xD5, 0xD1), (0xE5, 0xE1), (0xF5, 0xF1)] {
        let (mut cpu, mut bus) = load(&[push, pop]);
        cpu.set_bc(0x1234);
        cpu.set_de(0x5678);
        cpu.set_hl(0x9ABC);
        cpu.set_af(0xDEF0);
        let before = cpu;
        assert_eq!(cpu.step(&mut bus), Ok(()));
        assert_eq!(cpu.sp, 0xFFFC);
        assert_eq!(cpu.step(&mut bus), Ok(()));
        assert_eq!(cpu.sp, 0xFFFE);
        assert_eq!(cpu.bc(), before.bc());
        assert_eq!(cpu.de(), before.de());
        assert_eq!(cpu.hl(), before.hl());
        assert_eq!(cpu.af(), before.af());
        assert_eq!(cpu.af() & 0x000F, 0);
    }
}

#[test]
fn pop_af_masks_the_low_nibble() {
    let (mut cpu, mut bus) = load(&[0xF1]);
    cpu.push(&mut bus, 0x12FF);
    assert_eq!(cpu.step(&mut bus), Ok(()));
    assert_eq!(cpu.af(), 0x12F0);
    assert_eq!(cpu.f(), 0xF0);
}

#[test]
fn push_writes_the_high_byte_above_the_low_byte() {
    let (mut cpu, mut bus) = load(&[]);
    cpu.sp = 0xD000;
    cpu.push(&mut bus, 0xBEEF);
    assert_eq!(cpu.sp, 0xCFFE);
    assert_eq!(bus.read_u8(0xCFFF), 0xBE);
    assert_eq!(bus.read_u8(0xCFFE), 0xEF);
    assert_eq!(bus.cycles_to_spend, 2);
    assert_eq!(cpu.pop(&mut bus), 0xBEEF);
    assert_eq!(cpu.sp, 0xD000);
    assert_eq!(bus.cycles_to_spend, 4);
}

#[test]
fn stack_pointer_wraps() {
    let (mut cpu, mut bus) = load(&[]);
    cpu.sp = 0x0001;
    cpu.push(&mut bus, 0x1234);
    assert_eq!(cpu.sp, 0xFFFF);
    let (mut cpu, mut bus) = load(&[]);
    cpu.sp = 0xFFFF;
    cpu.pop(&mut bus);
    assert_eq!(cpu.sp, 0x0001);
}

#[test]
fn program_counter_wraps() {
    let (mut cpu, mut bus) = load(&[]);
    cpu.pc = 0xFFFF;
    bus.write_u8(0xFFFF, 0x00);
    assert_eq!(cpu.step(&mut bus), Ok(()));
    assert_eq!(cpu.pc, 0x0000);
}

#[test]
fn loads_move_bytes() {
    let (mut cpu, mut bus) = load(&[0x06, 0x42, 0x48, 0x21, 0x00, 0xC0, 0x71, 0x56, 0x3E, 0x99, 0x22, 0x3A]);
    for _ in 0..4 {
        assert_eq!(cpu.step(&mut bus), Ok(()));
    }
    assert_eq!(cpu.b, 0x42);
    assert_eq!(cpu.c, 0x42);
    assert_eq!(cpu.hl(), 0xC000);
    assert_eq!(bus.read_u8(0xC000), 0x42);
    assert_eq!(cpu.step(&mut bus), Ok(()));
    assert_eq!(cpu.d, 0x42);
    assert_eq!(cpu.step(&mut bus), Ok(()));
    assert_eq!(cpu.step(&mut bus), Ok(()));
    assert_eq!(bus.read_u8(0xC000), 0x99);
    assert_eq!(cpu.hl(), 0xC001);
    assert_eq!(cpu.step(&mut bus), Ok(()));
    assert_eq!(cpu.a, 0x00);
    assert_eq!(cpu.hl(), 0xC000);
}

#[test]
fn indirect_loads_through_bc_and_de() {
    let (mut cpu, mut bus) = load(&[0x02, 0x1A, 0x12, 0x0A, 0x32, 0x2A]);
    cpu.a = 0x77;
    cpu.set_bc(0xC010);
    cpu.set_de(0xC020);
    cpu.set_hl(0xC030);
    bus.write_u8(0xC020, 0x55);
    assert_eq!(cpu.step(&mut bus), Ok(()));
    assert_eq!(bus.read_u8(0xC010), 0x77);
    assert_eq!(cpu.step(&mut bus), Ok(()));
    assert_eq!(cpu.a, 0x55);
    cpu.a = 0x66;
    assert_eq!(cpu.step(&mut bus), Ok(()));
    assert_eq!(bus.read_u8(0xC020), 0x66);
    assert_eq!(cpu.step(&mut bus), Ok(()));
    assert_eq!(cpu.a, 0x77);
    assert_eq!(cpu.step(&mut bus), Ok(()));
    assert_eq!(bus.read_u8(0xC030), 0x77);
    assert_eq!(cpu.hl(), 0xC02F);
    assert_eq!(cpu.step(&mut bus), Ok(()));
    assert_eq!(cpu.hl(), 0xC030);
}

#[test]
fn wide_registers() {
    let (mut cpu, mut bus) = load(&[0x01, 0xFF, 0xFF, 0x03, 0x31, 0x00, 0xD0, 0x3B, 0x13, 0x2B, 0x39]);
    cpu.zero = true;
    assert_eq!(cpu.step(&mut bus), Ok(()));
    assert_eq!(cpu.bc(), 0xFFFF);
    assert_eq!(cpu.step(&mut bus), Ok(()));
    assert_eq!(cpu.bc(), 0x0000);
    assert!(cpu.zero);
    assert!(!cpu.carry);
    assert_eq!(cpu.step(&mut bus), Ok(()));
    assert_eq!(cpu.sp, 0xD000);
    assert_eq!(cpu.step(&mut bus), Ok(()));
    assert_eq!(cpu.sp, 0xCFFF);
    assert_eq!(cpu.step(&mut bus), Ok(()));
    assert_eq!(cpu.de(), 0x0001);
    assert_eq!(cpu.step(&mut bus), Ok(()));
    assert_eq!(cpu.hl(), 0xFFFF);
    assert_eq!(cpu.step(&mut bus), Ok(()));
    assert_eq!(cpu.hl(), 0xCFFE);
    assert!(cpu.carry);
    assert!(cpu.halfcarry);
    assert!(cpu.zero);
}

#[test]
fn store_sp_writes_low_byte_first() {
    let (mut cpu, mut bus) = load(&[0x08, 0x00, 0xC1]);
    cpu.sp = 0xABCD;
    assert_eq!(cpu.step(&mut bus), Ok(()));
    assert_eq!(bus.read_u8(0xC100), 0xCD);
    assert_eq!(bus.read_u8(0xC101), 0xAB);
}

#[test]
fn high_page_loads() {
    let (mut cpu, mut bus) = load(&[0xE0, 0x80, 0xF0, 0x81, 0xE2]);
    cpu.a = 0x5A;
    bus.write_u8(0xFF81, 0xA5);
    assert_eq!(cpu.step(&mut bus), Ok(()));
    assert_eq!(bus.read_u8(0xFF80), 0x5A);
    assert_eq!(cpu.step(&mut bus), Ok(()));
    assert_eq!(cpu.a, 0xA5);
    cpu.c = 0x90;
    assert_eq!(cpu.step(&mut bus), Ok(()));
    assert_eq!(bus.read_u8(0xFF90), 0xA5);
}

#[test]
fn hl_from_sp_and_offset() {
    let (mut cpu, mut bus) = load(&[0xF8, 0xFE, 0xF8, 0x02, 0xF9]);
    cpu.sp = 0x1000;
    cpu.zero = true;
    cpu.carry = true;
    assert_eq!(cpu.step(&mut bus), Ok(()));
    assert_eq!(cpu.hl(), 0x0FFE);
    assert!(cpu.zero);
    assert!(cpu.carry);
    assert_eq!(cpu.step(&mut bus), Ok(()));
    assert_eq!(cpu.hl(), 0x1002);
    cpu.set_hl(0xD123);
    assert_eq!(cpu.step(&mut bus), Ok(()));
    assert_eq!(cpu.sp, 0xD123);
}

#[test]
fn arithmetic_instructions_on_registers_and_memory() {
    let (mut cpu, mut bus) = load(&[0x80, 0x96, 0xFE, 0x0E, 0xAF, 0x34, 0x35, 0x0D, 0x3C]);
    cpu.a = 0x10;
    cpu.b = 0x05;
    cpu.c = 0x01;
    cpu.set_hl(0xC000);
    bus.write_u8(0xC000, 0x07);
    assert_eq!(cpu.step(&mut bus), Ok(()));
    assert_eq!(cpu.a, 0x15);
    assert_eq!(cpu.step(&mut bus), Ok(()));
    assert_eq!(cpu.a, 0x0E);
    assert_eq!(cpu.step(&mut bus), Ok(()));
    assert_eq!(cpu.a, 0x0E);
    assert!(cpu.zero);
    assert!(cpu.sub);
    assert_eq!(cpu.step(&mut bus), Ok(()));
    assert_eq!(cpu.a, 0x00);
    assert!(cpu.zero);
    assert!(!cpu.sub);
    assert!(!cpu.halfcarry);
    assert!(!cpu.carry);
    assert_eq!(cpu.step(&mut bus), Ok(()));
    assert_eq!(bus.read_u8(0xC000), 0x08);
    assert_eq!(cpu.step(&mut bus), Ok(()));
    assert_eq!(bus.read_u8(0xC000), 0x07);
    assert_eq!(cpu.step(&mut bus), Ok(()));
    assert_eq!(cpu.c, 0x00);
    assert!(cpu.zero);
    assert_eq!(cpu.step(&mut bus), Ok(()));
    assert_eq!(cpu.a, 0x01);
}

#[test]
fn second_page_instructions() {
    let (mut cpu, mut bus) = load(&[
        0xCB, 0x37, 0xCB, 0x7C, 0xCB, 0xC6, 0xCB, 0x86, 0xCB, 0x16, 0xCB, 0x41, 0xCB, 0xFF,
        0xCB, 0x38,
    ]);
    cpu.a = 0xF0;
    cpu.h = 0xC0;
    cpu.l = 0x00;
    cpu.b = 0x03;
    cpu.c = 0x02;
    assert_eq!(cpu.step(&mut bus), Ok(()));
    assert_eq!(cpu.a, 0x0F);
    assert_eq!(cpu.step(&mut bus), Ok(()));
    assert!(!cpu.zero);
    assert!(cpu.halfcarry);
    assert_eq!(cpu.step(&mut bus), Ok(()));
    assert_eq!(bus.read_u8(0xC000), 0x01);
    assert_eq!(cpu.step(&mut bus), Ok(()));
    assert_eq!(bus.read_u8(0xC000), 0x00);
    bus.write_u8(0xC000, 0x80);
    cpu.carry = true;
    assert_eq!(cpu.step(&mut bus), Ok(()));
    assert_eq!(bus.read_u8(0xC000), 0x01);
    assert!(cpu.carry);
    assert_eq!(cpu.step(&mut bus), Ok(()));
    assert!(cpu.zero);
    assert!(cpu.carry);
    assert_eq!(cpu.step(&mut bus), Ok(()));
    assert_eq!(cpu.a, 0x8F);
    assert_eq!(cpu.step(&mut bus), Ok(()));
    assert_eq!(cpu.b, 0x01);
    assert!(cpu.carry);
    assert_eq!(cpu.pc, 16);
}

#[test]
fn rotations_on_a_in_the_first_page() {
    let (mut cpu, mut bus) = load(&[0x07, 0x0F, 0x17, 0x1F, 0x2F, 0x37, 0x3F]);
    cpu.a = 0x80;
    assert_eq!(cpu.step(&mut bus), Ok(()));
    assert_eq!(cpu.a, 0x01);
    assert!(cpu.carry);
    assert!(!cpu.zero);
    assert_eq!(cpu.step(&mut bus), Ok(()));
    assert_eq!(cpu.a, 0x80);
    assert!(cpu.carry);
    assert_eq!(cpu.step(&mut bus), Ok(()));
    assert_eq!(cpu.a, 0x01);
    assert!(cpu.carry);
    assert_eq!(cpu.step(&mut bus), Ok(()));
    assert_eq!(cpu.a, 0x80);
    assert!(cpu.carry);
    assert_eq!(cpu.step(&mut bus), Ok(()));
    assert_eq!(cpu.a, 0x7F);
    assert_eq!(cpu.step(&mut bus), Ok(()));
    assert!(cpu.carry);
    assert_eq!(cpu.step(&mut bus), Ok(()));
    assert!(!cpu.carry);
    assert_eq!(bus.cycles_to_spend, 7);
}

#[test]
fn di_and_ei() {
    let (mut cpu, mut bus) = load(&[0xFB, 0xF3]);
    assert_eq!(cpu.step(&mut bus), Ok(()));
    assert!(cpu.ime);
    assert_eq!(cpu.step(&mut bus), Ok(()));
    assert!(!cpu.ime);
}

#[test]
fn unknown_opcodes_are_reported() {
    for op in [
        0x10u8, 0x27, 0xD3, 0xDB, 0xDD, 0xE3, 0xE4, 0xE8, 0xEB, 0xEC, 0xED, 0xF2, 0xF4, 0xFC, 0xFD,
    ] {
        let (mut cpu, mut bus) = load(&[op]);
        let before = cpu;
        assert_eq!(cpu.step(&mut bus), Err(GbError::UnknownOpcode(op)));
        assert_eq!(cpu.pc, 1);
        assert_eq!(bus.cycles_to_spend, 1);
        cpu.pc = 0;
        assert_eq!(cpu, before);
    }
}

#[test]
fn every_other_opcode_is_known() {
    let unknown = [
        0x10u8, 0x27, 0xD3, 0xDB, 0xDD, 0xE3, 0xE4, 0xE8, 0xEB, 0xEC, 0xED, 0xF2, 0xF4, 0xFC, 0xFD,
    ];
    for op in 0..=255u8 {
        if unknown.contains(&op) {
            continue;
        }
        let (mut cpu, mut bus) = load(&[op, 0x00, 0xC0]);
        cpu.set_hl(0xC000);
        assert_eq!(cpu.step(&mut bus), Ok(()), "opcode {:02x}", op);
        assert!(bus.cycles_to_spend >= 1 && bus.cycles_to_spend <= 6);
    }
}

#[test]
fn every_opcode_of_the_second_page_is_known() {
    for op in 0..=255u8 {
        let (mut cpu, mut bus) = load(&[0xCB, op]);
        cpu.set_hl(0xC000);
        assert_eq!(cpu.step(&mut bus), Ok(()));
        let memory = op & 7 == 6;
        let reads_only = (0x40..0x80).contains(&op);
        let expected = if !memory { 2 } else if reads_only { 3 } else { 4 };
        assert_eq!(bus.cycles_to_spend, expected, "opcode cb {:02x}", op);
        assert_eq!(cpu.pc, 2);
    }
}

#[test]
fn execute_tells_whether_the_opcode_is_known() {
    let (mut cpu, mut bus) = load(&[]);
    assert!(cpu.execute(&mut bus, 0x00));
    assert!(!cpu.execute(&mut bus, 0xD3));
    assert!(cpu.execute(&mut bus, 0x3C));
    assert_eq!(cpu.a, 1);
    assert_eq!(cpu.pc, 0);
}

#[test]
fn run_instruction_does_not_look_at_interrupts() {
    let (mut cpu, mut bus) = load(&[0x00]);
    cpu.ime = true;
    bus.write_u8(0xFFFF, 0x01);
    bus.write_u8(0xFF0F, 0x01);
    assert_eq!(cpu.run_instruction(&mut bus), Ok(()));
    assert_eq!(cpu.pc, 1);
    assert!(cpu.ime);
    assert_eq!(bus.has_irq(), Some(0x40));
}

#[test]
fn halt_idles_until_an_interrupt_is_requested() {
    let (mut cpu, mut bus) = load(&[0x76, 0x3C]);
    assert_eq!(cpu.step(&mut bus), Ok(()));
    assert!(cpu.halted);
    assert_eq!(cpu.pc, 1);
    assert_eq!(bus.cycles_to_spend, 1);
    for idle in 0..5u32 {
        assert_eq!(cpu.step(&mut bus), Ok(()));
        assert!(cpu.halted);
        assert_eq!(cpu.pc, 1);
        assert_eq!(cpu.a, 0);
        assert_eq!(bus.cycles_to_spend, 2 + idle);
    }
    bus.write_u8(0xFFFF, 0x01);
    bus.write_u8(0xFF0F, 0x01);
    assert_eq!(cpu.step(&mut bus), Ok(()));
    assert!(!cpu.halted);
    assert_eq!(cpu.pc, 1);
    assert_eq!(bus.has_irq(), Some(0x40));
    assert_eq!(cpu.step(&mut bus), Ok(()));
    assert_eq!(cpu.a, 1);
    assert_eq!(cpu.pc, 2);
}

#[test]
fn halt_ignores_a_request_that_is_not_enabled() {
    let (mut cpu, mut bus) = load(&[0x76]);
    assert_eq!(cpu.step(&mut bus), Ok(()));
    bus.write_u8(0xFF0F, 0x03);
    assert_eq!(cpu.step(&mut bus), Ok(()));
    assert!(cpu.halted);
}

#[test]
fn halted_processor_takes_the_interrupt_if_enabled() {
    let (mut cpu, mut bus) = load(&[]);
    cpu.halted = true;
    cpu.ime = true;
    cpu.pc = 0x1234;
    bus.write_u8(0xFFFF, 0x01);
    bus.write_u8(0xFF0F, 0x01);
    assert_eq!(cpu.step(&mut bus), Ok(()));
    assert!(!cpu.halted);
    assert!(!cpu.ime);
    assert_eq!(cpu.pc, 0x0040);
    assert_eq!(cpu.sp, 0xFFFC);
    assert_eq!(bus.read_u8(0xFFFC), 0x34);
    assert_eq!(bus.read_u8(0xFFFD), 0x12);
    assert!(!bus.ppu.has_vblank_irq());
    assert_eq!(bus.cycles_to_spend, 4);
}

#[test]
fn interrupt_vector_dispatch() {
    let (mut cpu, mut bus) = load(&[0x00]);
    cpu.ime = true;
    bus.write_u8(0xFFFF, 0x01);
    bus.ppu.set_vblank_irq(true);
    assert_eq!(cpu.step(&mut bus), Ok(()));
    assert_eq!(cpu.pc, 0x0040);
    assert!(!cpu.ime);
    assert!(!bus.ppu.has_vblank_irq());
    assert_eq!(cpu.sp, 0xFFFC);
    assert_eq!(bus.read_u8(0xFFFC), 0x01);
    assert_eq!(bus.read_u8(0xFFFD), 0x00);
    assert_eq!(bus.cycles_to_spend, 4);
    assert_eq!(bus.has_irq(), None);
}

#[test]
fn stat_interrupt_goes_to_its_vector() {
    let (mut cpu, mut bus) = load(&[0x00, 0x00]);
    cpu.ime = true;
    bus.write_u8(0xFFFF, 0x02);
    bus.write_u8(0xFF0F, 0x03);
    assert_eq!(cpu.step(&mut bus), Ok(()));
    assert_eq!(cpu.pc, 0x0048);
    assert!(bus.ppu.has_vblank_irq());
    assert!(!bus.ppu.has_stat_irq());
}

#[test]
fn no_dispatch_while_interrupts_are_disabled() {
    let (mut cpu, mut bus) = load(&[0x00]);
    cpu.ime = false;
    bus.write_u8(0xFFFF, 0x01);
    bus.write_u8(0xFF0F, 0x01);
    assert_eq!(cpu.step(&mut bus), Ok(()));
    assert_eq!(cpu.pc, 0x0001);
    assert_eq!(cpu.sp, 0xFFFE);
    assert!(bus.ppu.has_vblank_irq());
}

#[test]
fn interrupt_looks_only_at_interrupts() {
    let (mut cpu, mut bus) = load(&[0x3C]);
    cpu.ime = true;
    cpu.pc = 0x0020;
    bus.write_u8(0xFFFF, 0x03);
    bus.write_u8(0xFF0F, 0x03);
    cpu.interrupt(&mut bus);
    assert_eq!(cpu.pc, 0x0040);
    assert_eq!(cpu.a, 0);
    assert_eq!(bus.cycles_to_spend, 3);
    assert_eq!(bus.has_irq(), Some(0x48));
}

#[test]
fn memory_helpers_charge_one_cycle_per_byte() {
    let (mut cpu, mut bus) = load(&[0x11, 0x22, 0x33]);
    assert_eq!(cpu.read_u8(&mut bus, 0x0001), 0x22);
    assert_eq!(bus.cycles_to_spend, 1);
    assert_eq!(cpu.read_u16(&mut bus, 0x0001), 0x3322);
    assert_eq!(bus.cycles_to_spend, 3);
    cpu.write_u8(&mut bus, 0xC000, 0x44);
    assert_eq!(bus.cycles_to_spend, 4);
    cpu.write_u16(&mut bus, 0xC001, 0x6655);
    assert_eq!(bus.cycles_to_spend, 6);
    assert_eq!(bus.read_u8(0xC000), 0x44);
    assert_eq!(bus.read_u8(0xC001), 0x55);
    assert_eq!(bus.read_u8(0xC002), 0x66);
    assert_eq!(cpu.next_u8(&mut bus), 0x11);
    assert_eq!(cpu.pc, 1);
    assert_eq!(cpu.next_u16(&mut bus), 0x3322);
    assert_eq!(cpu.pc, 3);
    assert_eq!(bus.cycles_to_spend, 9);
    cpu.set_hl(0xC000);
    assert_eq!(cpu.read_hl(&mut bus), 0x44);
    cpu.write_hl(&mut bus, 0x45);
    assert_eq!(bus.read_u8(0xC000), 0x45);
    assert_eq!(bus.cycles_to_spend, 11);
    cpu.set_pc(&mut bus, 0x0150);
    assert_eq!(cpu.pc, 0x0150);
    assert_eq!(cpu.inc_u16(&mut bus, 0xFFFF), 0x0000);
    assert_eq!(cpu.dec_u16(&mut bus, 0x0000), 0xFFFF);
    assert_eq!(bus.cycles_to_spend, 14);
    cpu.set_hl(0x0FFF);
    cpu.add_u16(&mut bus, 0x0001);
    assert_eq!(cpu.hl(), 0x1000);
    assert!(cpu.halfcarry);
    assert_eq!(bus.cycles_to_spend, 15);
}

#[test]
fn control_helpers() {
    let (mut cpu, mut bus) = load(&[0x05, 0x34, 0x12, 0x78, 0x56]);
    cpu.jr(&mut bus);
    assert_eq!(cpu.pc, 0x0006);
    cpu.pc = 1;
    cpu.jp_cond(&mut bus, true);
    assert_eq!(cpu.pc, 0x1234);
    cpu.pc = 3;
    cpu.call(&mut bus);
    assert_eq!(cpu.pc, 0x5678);
    assert_eq!(cpu.sp, 0xFFFC);
    cpu.ret(&mut bus);
    assert_eq!(cpu.pc, 0x0005);
    cpu.rst(&mut bus, 0x18);
    assert_eq!(cpu.pc, 0x0018);
    cpu.ret_cond(&mut bus, false);
    assert_eq!(cpu.pc, 0x0018);
    cpu.ret_cond(&mut bus, true);
    assert_eq!(cpu.pc, 0x0005);
    cpu.pc = 1;
    cpu.call_cond(&mut bus, false);
    assert_eq!(cpu.pc, 0x0003);
    cpu.pc = 0;
    cpu.jr_cond(&mut bus, false);
    assert_eq!(cpu.pc, 0x0001);
}
