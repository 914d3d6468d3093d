use gback::cpu::CPU;

fn cpu_with_a(a: u8) -> CPU {
    let mut cpu = CPU::new();
    cpu.a = a;
    cpu
}

fn flags(cpu: &CPU) -> (bool, bool, bool, bool) {
    (cpu.zero, cpu.sub, cpu.halfcarry, cpu.carry)
}

#[test]
fn cp_sets_flags_and_keeps_a() {
    let mut cpu = cpu_with_a(0x3C);
    cpu.cp_u8(0x2F);
    assert_eq!(flags(&cpu), (false, true, true, false));
    assert_eq!(cpu.a, 0x3C);
    cpu.cp_u8(0x3C);
    assert_eq!(flags(&cpu), (true, true, false, false));
    assert_eq!(cpu.a, 0x3C);
    cpu.cp_u8(0x40);
    assert_eq!(flags(&cpu), (false, true, false, true));
    assert_eq!(cpu.a, 0x3C);
}

#[test]
fn cp_flags_for_every_pair() {
    for a in 0..=255u8 {
        for v in 0..=255u8 {
            let mut cpu = cpu_with_a(a);
            cpu.cp_u8(v);
            assert_eq!(cpu.zero, a == v);
            assert_eq!(cpu.carry, a < v);
            assert_eq!(cpu.halfcarry, (a & 0xF) < (v & 0xF));
            assert!(cpu.sub);
            assert_eq!(cpu.a, a);
        }
    }
}

#[test]
fn xor_a_with_itself_clears_a() {
    for a in 0..=255u8 {
        let mut cpu = cpu_with_a(a);
        cpu.carry = true;
        cpu.halfcarry = true;
        cpu.sub = true;
        cpu.xor_u8(a);
        assert_eq!(cpu.a, 0);
        assert_eq!(flags(&cpu), (true, false, false, false));
    }
}

#[test]
fn swap_exchanges_nibbles() {
    for v in 0..=255u8 {
        let mut cpu = CPU::new();
        cpu.carry = true;
        let r = cpu.swap_u8(v);
        assert_eq!(r as u16, (((v as u16) << 4) | ((v as u16) >> 4)) & 0xFF);
        assert_eq!(flags(&cpu), (v == 0, false, false, false));
    }
    let mut cpu = CPU::new();
    assert_eq!(cpu.swap_u8(0xF0), 0x0F);
    assert_eq!(cpu.swap_u8(0x12), 0x21);
}

#[test]
fn inc_then_dec_gives_the_number_back() {
    for v in 0..=255u8 {
        for carry in [false, true] {
            let mut cpu = CPU::new();
            cpu.carry = carry;
            let up = cpu.inc_u8(v);
            assert_eq!(cpu.carry, carry);
            assert_eq!((cpu.zero, cpu.sub, cpu.halfcarry), (v == 0xFF, false, v & 0xF == 0xF));
            let down = cpu.dec_u8(up);
            assert_eq!(down, v);
            assert_eq!(cpu.carry, carry);
            assert_eq!((cpu.zero, cpu.sub, cpu.halfcarry), (up == 1, true, up & 0xF == 0));
        }
    }
}

#[test]
fn inc_and_dec_at_the_edges() {
    let mut cpu = CPU::new();
    assert_eq!(cpu.inc_u8(0xFF), 0x00);
    assert_eq!(flags(&cpu), (true, false, true, false));
    assert_eq!(cpu.inc_u8(0x0F), 0x10);
    assert_eq!(flags(&cpu), (false, false, true, false));
    assert_eq!(cpu.dec_u8(0x01), 0x00);
    assert_eq!(flags(&cpu), (true, true, false, false));
    assert_eq!(cpu.dec_u8(0x00), 0xFF);
    assert_eq!(flags(&cpu), (false, true, true, false));
}

#[test]
fn rlca_then_rrca_gives_a_back() {
    for a in 0..=255u8 {
        for carry in [false, true] {
            let mut cpu = cpu_with_a(a);
            cpu.carry = carry;
            cpu.rotate_a(0);
            assert_eq!(cpu.carry, a & 0x80 != 0);
            assert!(!cpu.zero);
            cpu.rotate_a(1);
            assert_eq!(cpu.a, a);
            assert_eq!(flags(&cpu), (false, false, false, a & 0x80 != 0));
        }
    }
}

#[test]
fn rotations_on_a_always_clear_zero() {
    let mut cpu = cpu_with_a(0x85);
    cpu.rotate_a(0);
    assert_eq!(cpu.a, 0x0B);
    assert_eq!(flags(&cpu), (false, false, false, true));

    let mut cpu = cpu_with_a(0x3B);
    cpu.rotate_a(1);
    assert_eq!(cpu.a, 0x9D);
    assert_eq!(flags(&cpu), (false, false, false, true));

    let mut cpu = cpu_with_a(0x95);
    cpu.carry = true;
    cpu.rotate_a(2);
    assert_eq!(cpu.a, 0x2B);
    assert_eq!(flags(&cpu), (false, false, false, true));

    let mut cpu = cpu_with_a(0x81);
    cpu.rotate_a(3);
    assert_eq!(cpu.a, 0x40);
    assert_eq!(flags(&cpu), (false, false, false, true));

    let mut cpu = cpu_with_a(0x00);
    cpu.rotate_a(0);
    assert_eq!(cpu.a, 0x00);
    assert_eq!(flags(&cpu), (false, false, false, false));
}

#[test]
fn add_sets_half_carry_and_carry() {
    let mut cpu = cpu_with_a(0x3A);
    cpu.add_u8(0xC6);
    assert_eq!(cpu.a, 0x00);
    assert_eq!(flags(&cpu), (true, false, true, true));

    let mut cpu = cpu_with_a(0x3C);
    cpu.add_u8(0xFF);
    assert_eq!(cpu.a, 0x3B);
    assert_eq!(flags(&cpu), (false, false, true, true));

    let mut cpu = cpu_with_a(0x3C);
    cpu.add_u8(0x12);
    assert_eq!(cpu.a, 0x4E);
    assert_eq!(flags(&cpu), (false, false, false, false));
}

#[test]
fn add_flags_for_every_pair() {
    for a in 0..=255u8 {
        for v in 0..=255u8 {
            let mut cpu = cpu_with_a(a);
            cpu.add_u8(v);
            let sum = a as u16 + v as u16;
            assert_eq!(cpu.a, (sum & 0xFF) as u8);
            assert_eq!(cpu.zero, sum & 0xFF == 0);
            assert_eq!(cpu.halfcarry, (a & 0xF) + (v & 0xF) > 0xF);
            assert_eq!(cpu.carry, sum > 0xFF);
            assert!(!cpu.sub);
        }
    }
}

#[test]
fn adc_folds_the_carry_in() {
    let mut cpu = cpu_with_a(0xE1);
    cpu.carry = true;
    cpu.adc_u8(0x0F);
    assert_eq!(cpu.a, 0xF1);
    assert_eq!(flags(&cpu), (false, false, true, false));

    let mut cpu = cpu_with_a(0xE1);
    cpu.carry = true;
    cpu.adc_u8(0x3B);
    assert_eq!(cpu.a, 0x1D);
    assert_eq!(flags(&cpu), (false, false, false, true));

    let mut cpu = cpu_with_a(0xE1);
    cpu.carry = true;
    cpu.adc_u8(0x1E);
    assert_eq!(cpu.a, 0x00);
    assert_eq!(flags(&cpu), (true, false, true, true));
}

#[test]
fn sub_stores_the_difference() {
    let mut cpu = cpu_with_a(0x3E);
    cpu.sub_u8(0x3E);
    assert_eq!(cpu.a, 0x00);
    assert_eq!(flags(&cpu), (true, true, false, false));

    let mut cpu = cpu_with_a(0x3E);
    cpu.sub_u8(0x0F);
    assert_eq!(cpu.a, 0x2F);
    assert_eq!(flags(&cpu), (false, true, true, false));

    let mut cpu = cpu_with_a(0x3E);
    cpu.sub_u8(0x40);
    assert_eq!(cpu.a, 0xFE);
    assert_eq!(flags(&cpu), (false, true, false, true));
}

#[test]
fn sbc_borrows_through_the_carry() {
    let mut cpu = cpu_with_a(0x3B);
    cpu.carry = true;
    cpu.sbc_u8(0x2A);
    assert_eq!(cpu.a, 0x10);
    assert_eq!(flags(&cpu), (false, true, false, false));

    let mut cpu = cpu_with_a(0x3B);
    cpu.carry = true;
    cpu.sbc_u8(0x3A);
    assert_eq!(cpu.a, 0x00);
    assert_eq!(flags(&cpu), (true, true, false, false));

    let mut cpu = cpu_with_a(0x3B);
    cpu.carry = true;
    cpu.sbc_u8(0x4F);
    assert_eq!(cpu.a, 0xEB);
    assert_eq!(flags(&cpu), (false, true, true, true));
}

#[test]
fn sbc_flags_for_every_input() {
    for a in 0..=255u8 {
        for v in 0..=255u8 {
            for carry in [false, true] {
                let mut cpu = cpu_with_a(a);
                cpu.carry = carry;
                cpu.sbc_u8(v);
                let c = carry as i32;
                let diff = a as i32 - v as i32 - c;
                assert_eq!(cpu.a, (diff & 0xFF) as u8);
                assert_eq!(cpu.zero, diff & 0xFF == 0);
                assert_eq!(cpu.halfcarry, ((a & 0xF) as i32) < (v & 0xF) as i32 + c);
                assert_eq!(cpu.carry, diff < 0);
                assert!(cpu.sub);
            }
        }
    }
}

#[test]
fn add_hl_leaves_zero_alone() {
    let mut cpu = CPU::new();
    cpu.set_hl(0x8A23);
    cpu.zero = true;
    cpu.sub = true;
    cpu.add_hl(0x0605);
    assert_eq!(cpu.hl(), 0x9028);
    assert_eq!(flags(&cpu), (true, false, true, false));

    let mut cpu = CPU::new();
    cpu.set_hl(0x8A23);
    cpu.add_hl(0x8A23);
    assert_eq!(cpu.hl(), 0x1446);
    assert_eq!(flags(&cpu), (false, false, true, true));
}

#[test]
fn logic_operations_on_a() {
    let mut cpu = cpu_with_a(0x5A);
    cpu.carry = true;
    cpu.and_u8(0x3F);
    assert_eq!(cpu.a, 0x1A);
    assert_eq!(flags(&cpu), (false, false, true, false));
    cpu.and_u8(0x00);
    assert_eq!(cpu.a, 0x00);
    assert_eq!(flags(&cpu), (true, false, true, false));

    let mut cpu = cpu_with_a(0x5A);
    cpu.carry = true;
    cpu.or_u8(0x03);
    assert_eq!(cpu.a, 0x5B);
    assert_eq!(flags(&cpu), (false, false, false, false));
    let mut cpu = cpu_with_a(0x00);
    cpu.or_u8(0x00);
    assert_eq!(flags(&cpu), (true, false, false, false));

    let mut cpu = cpu_with_a(0xFF);
    cpu.xor_u8(0x0F);
    assert_eq!(cpu.a, 0xF0);
    assert_eq!(flags(&cpu), (false, false, false, false));
}

#[test]
fn rotations_and_shifts_eject_one_bit() {
    let mut cpu = CPU::new();
    assert_eq!(cpu.rlc_u8(0x85), 0x0B);
    assert_eq!(flags(&cpu), (false, false, false, true));
    assert_eq!(cpu.rlc_u8(0x00), 0x00);
    assert_eq!(flags(&cpu), (true, false, false, false));

    assert_eq!(cpu.rrc_u8(0x01), 0x80);
    assert_eq!(flags(&cpu), (false, false, false, true));

    cpu.carry = false;
    assert_eq!(cpu.rl_u8(0x80), 0x00);
    assert_eq!(flags(&cpu), (true, false, false, true));
    assert_eq!(cpu.rl_u8(0x11), 0x23);
    assert_eq!(flags(&cpu), (false, false, false, false));

    cpu.carry = false;
    assert_eq!(cpu.rr_u8(0x01), 0x00);
    assert_eq!(flags(&cpu), (true, false, false, true));
    assert_eq!(cpu.rr_u8(0x8A), 0xC5);
    assert_eq!(flags(&cpu), (false, false, false, false));

    assert_eq!(cpu.sla_u8(0x80), 0x00);
    assert_eq!(flags(&cpu), (true, false, false, true));
    assert_eq!(cpu.sla_u8(0xFF), 0xFE);
    assert_eq!(flags(&cpu), (false, false, false, true));

    assert_eq!(cpu.sra_u8(0x8A), 0xC5);
    assert_eq!(flags(&cpu), (false, false, false, false));
    assert_eq!(cpu.sra_u8(0x01), 0x00);
    assert_eq!(flags(&cpu), (true, false, false, true));

    assert_eq!(cpu.srl_u8(0x01), 0x00);
    assert_eq!(flags(&cpu), (true, false, false, true));
    assert_eq!(cpu.srl_u8(0xFF), 0x7F);
    assert_eq!(flags(&cpu), (false, false, false, true));
}

#[test]
fn shift_picks_the_operation_by_kind() {
    let mut cpu = CPU::new();
    assert_eq!(cpu.shift(0, 0x81), 0x03);
    assert_eq!(cpu.shift(1, 0x81), 0xC0);
    cpu.carry = false;
    assert_eq!(cpu.shift(2, 0x81), 0x02);
    cpu.carry = false;
    assert_eq!(cpu.shift(3, 0x81), 0x40);
    assert_eq!(cpu.shift(4, 0x81), 0x02);
    assert_eq!(cpu.shift(5, 0x81), 0xC0);
    assert_eq!(cpu.shift(6, 0x81), 0x18);
    assert_eq!(cpu.shift(7, 0x81), 0x40);
}

#[test]
fn alu_picks_the_operation_by_kind() {
    let expected: [(u8, u8); 8] = [
        (0, 0x15),
        (1, 0x16),
        (2, 0x0B),
        (3, 0x0A),
        (4, 0x00),
        (5, 0x15),
        (6, 0x15),
        (7, 0x10),
    ];
    for (kind, a) in expected {
        let mut cpu = cpu_with_a(0x10);
        cpu.carry = true;
        cpu.alu(kind, 0x05);
        assert_eq!(cpu.a, a, "kind {}", kind);
    }
}

#[test]
fn bit_tests_and_leaves_carry() {
    let mut cpu = CPU::new();
    cpu.carry = true;
    cpu.bit_u8(7, 0x80);
    assert_eq!(flags(&cpu), (false, false, true, true));
    cpu.bit_u8(4, 0xEF);
    assert_eq!(flags(&cpu), (true, false, true, true));
    cpu.carry = false;
    cpu.bit_u8(0, 0x01);
    assert_eq!(flags(&cpu), (false, false, true, false));
}

#[test]
fn res_and_set_change_one_bit() {
    let cpu = CPU::new();
    assert_eq!(cpu.res_u8(7, 0x80), 0x00);
    assert_eq!(cpu.res_u8(1, 0x3B), 0x39);
    assert_eq!(cpu.res_u8(3, 0xFF), 0xF7);
    assert_eq!(cpu.set_u8(3, 0x80), 0x88);
    assert_eq!(cpu.set_u8(7, 0x3B), 0xBB);
    assert_eq!(cpu.set_u8(0, 0x01), 0x01);
}

#[test]
fn cpl_scf_ccf() {
    let mut cpu = cpu_with_a(0x35);
    cpu.zero = true;
    cpu.cpl();
    assert_eq!(cpu.a, 0xCA);
    assert_eq!(flags(&cpu), (true, true, true, false));
    cpu.scf();
    assert_eq!(flags(&cpu), (true, false, false, true));
    cpu.ccf();
    assert_eq!(flags(&cpu), (true, false, false, false));
    cpu.ccf();
    assert_eq!(flags(&cpu), (true, false, false, true));
}

#[test]
fn flags_byte_packs_into_the_high_nibble() {
    let mut cpu = CPU::new();
    assert_eq!(cpu.f(), 0x00);
    cpu.zero = true;
    assert_eq!(cpu.f(), 0x80);
    cpu.sub = true;
    assert_eq!(cpu.f(), 0xC0);
    cpu.halfcarry = true;
    assert_eq!(cpu.f(), 0xE0);
    cpu.carry = true;
    assert_eq!(cpu.f(), 0xF0);
    cpu.zero = false;
    cpu.halfcarry = false;
    assert_eq!(cpu.f(), 0x50);
}

#[test]
fn set_af_drops_the_low_nibble() {
    let mut cpu = CPU::new();
    cpu.set_af(0x12FF);
    assert_eq!(cpu.a, 0x12);
    assert_eq!(flags(&cpu), (true, true, true, true));
    assert_eq!(cpu.af(), 0x12F0);
    cpu.set_af(0xAB5F);
    assert_eq!(flags(&cpu), (false, true, false, true));
    assert_eq!(cpu.af(), 0xAB50);
    cpu.set_af(0x000F);
    assert_eq!(cpu.af(), 0x0000);
}

#[test]
fn register_pairs_split_into_halves() {
    let mut cpu = CPU::new();
    cpu.set_bc(0x1234);
    cpu.set_de(0x5678);
    cpu.set_hl(0x9ABC);
    assert_eq!((cpu.b, cpu.c), (0x12, 0x34));
    assert_eq!((cpu.d, cpu.e), (0x56, 0x78));
    assert_eq!((cpu.h, cpu.l), (0x9A, 0xBC));
    assert_eq!(cpu.bc(), 0x1234);
    assert_eq!(cpu.de(), 0x5678);
    assert_eq!(cpu.hl(), 0x9ABC);
}

#[test]
fn registers_by_index() {
    let mut cpu = CPU::new();
    for index in 0..8u8 {
        cpu.set_reg(index, 0x10 + index);
    }
    assert_eq!((cpu.b, cpu.c, cpu.d, cpu.e, cpu.h, cpu.l), (0x10, 0x11, 0x12, 0x13, 0x14, 0x15));
    assert_eq!(cpu.a, 0x17);
    assert_eq!(cpu.get_reg(3), 0x13);
    assert_eq!(cpu.get_reg(7), 0x17);
    cpu.sp = 0xFFFE;
    assert_eq!(cpu.get_wide(0), 0x1011);
    assert_eq!(cpu.get_wide(1), 0x1213);
    assert_eq!(cpu.get_wide(2), 0x1415);
    assert_eq!(cpu.get_wide(3), 0xFFFE);
    cpu.carry = true;
    assert_eq!(cpu.get_stacked(3), 0x1710);
    cpu.set_wide(3, 0xC000);
    assert_eq!(cpu.sp, 0xC000);
    cpu.set_stacked(3, 0x2280);
    assert_eq!(cpu.a, 0x22);
    assert_eq!(flags(&cpu), (true, false, false, false));
    assert!(!cpu.test_condition(0));
    assert!(cpu.test_condition(1));
    assert!(cpu.test_condition(2));
    assert!(!cpu.test_condition(3));
}

#[test]
fn new_cpu_is_reset() {
    let cpu = CPU::new();
    assert_eq!(cpu.pc, 0);
    assert_eq!(cpu.sp, 0);
    assert_eq!(cpu.af(), 0);
    assert_eq!(cpu.bc(), 0);
    assert_eq!(cpu.de(), 0);
    assert_eq!(cpu.hl(), 0);
    assert!(!cpu.ime);
    assert!(!cpu.halted);
}
