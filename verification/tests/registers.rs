use gbemu_rs::registers::{clear_bit, raise_bit, test_bit, Flag, Registers};

#[test]
fn combine_a_and_f() {
    let mut mock_registers = Registers::new();

    mock_registers.a = 0x10;
    mock_registers.f = 0xff;

    assert_eq!(mock_registers.af(), 0x10ff);
}

#[test]
fn new_registers_start_at_the_entry_point() {
    let r = Registers::new();
    assert_eq!(r.pc, 0x100);
    assert_eq!(r.sp, 0);
    assert_eq!(r.af(), 0);
    assert_eq!(r.bc(), 0);
    assert_eq!(r.de(), 0);
    assert_eq!(r.hl(), 0);
}

#[test]
fn pair_setters_read_back() {
    let values: [u16; 7] = [0x0000, 0x0001, 0x00FF, 0x0100, 0x1234, 0xABCD, 0xFFFF];
    for v in values {
        let mut r = Registers::new();
        r.set_bc(v);
        assert_eq!(r.bc(), v);
        assert_eq!(r.b, (v >> 8) as u8);
        assert_eq!(r.c, (v & 0xFF) as u8);
        r.set_de(v);
        assert_eq!(r.de(), v);
        r.set_hl(v);
        assert_eq!(r.hl(), v);
        r.set_af(v);
        assert_eq!(r.af(), v);
    }
}

#[test]
fn pair_setters_leave_other_registers_alone() {
    let mut r = Registers::new();
    r.set_bc(0x1122);
    r.set_de(0x3344);
    r.set_hl(0x5566);
    assert_eq!(r.bc(), 0x1122);
    assert_eq!(r.de(), 0x3344);
    assert_eq!(r.hl(), 0x5566);
    assert_eq!(r.a, 0);
    assert_eq!(r.f, 0);
    assert_eq!(r.sp, 0);
    assert_eq!(r.pc, 0x100);
}

#[test]
fn flags_live_in_the_high_nibble() {
    let mut r = Registers::new();
    r.set_flag(Flag::Z, true);
    assert_eq!(r.f, 0x80);
    r.set_flag(Flag::C, true);
    assert_eq!(r.f, 0x90);
    r.set_flag(Flag::N, true);
    assert_eq!(r.f, 0xD0);
    r.set_flag(Flag::H, true);
    assert_eq!(r.f, 0xF0);
    r.set_flag(Flag::Z, false);
    assert_eq!(r.f, 0x70);
    assert!(r.get_flag(Flag::C));
    assert!(r.get_flag(Flag::H));
    assert!(r.get_flag(Flag::N));
    assert!(!r.get_flag(Flag::Z));
}

#[test]
fn set_flags_keeps_the_low_nibble() {
    let mut r = Registers::new();
    r.f = 0x0F;
    r.set_flags(true, false, true, false);
    assert_eq!(r.f, 0xAF);
}

#[test]
fn add_sets_half_carry_at_the_nibble_boundary() {
    let mut r = Registers::new();
    r.a = 0x0F;
    r.alu_add(0x01);
    assert_eq!(r.a, 0x10);
    assert!(r.get_flag(Flag::H));
    assert!(!r.get_flag(Flag::C));
    assert!(!r.get_flag(Flag::Z));
    assert!(!r.get_flag(Flag::N));
}

#[test]
fn add_sets_zero_and_carry_on_wrap() {
    let mut r = Registers::new();
    r.a = 0xFF;
    r.alu_add(0x01);
    assert_eq!(r.a, 0x00);
    assert!(r.get_flag(Flag::Z));
    assert!(r.get_flag(Flag::C));
    assert!(r.get_flag(Flag::H));
    assert!(!r.get_flag(Flag::N));
}

#[test]
fn sub_sets_half_carry_on_borrow_from_bit_four() {
    let mut r = Registers::new();
    r.a = 0x10;
    r.alu_sub(0x01);
    assert_eq!(r.a, 0x0F);
    assert!(r.get_flag(Flag::H));
    assert!(r.get_flag(Flag::N));
    assert!(!r.get_flag(Flag::C));
    assert!(!r.get_flag(Flag::Z));
}

#[test]
fn sub_carry_means_borrow() {
    let mut r = Registers::new();
    r.a = 0x01;
    r.alu_sub(0x02);
    assert_eq!(r.a, 0xFF);
    assert!(r.get_flag(Flag::C));
    assert!(r.get_flag(Flag::H));
    let mut r = Registers::new();
    r.a = 0x80;
    r.alu_sub(0x01);
    assert_eq!(r.a, 0x7F);
    assert!(!r.get_flag(Flag::C));
}

#[test]
fn adc_and_sbc_take_the_carry_in() {
    let mut r = Registers::new();
    r.a = 0x0E;
    r.set_flag(Flag::C, true);
    r.alu_adc(0x01);
    assert_eq!(r.a, 0x10);
    assert!(r.get_flag(Flag::H));
    assert!(!r.get_flag(Flag::C));

    let mut r = Registers::new();
    r.a = 0xFF;
    r.set_flag(Flag::C, true);
    r.alu_adc(0x00);
    assert_eq!(r.a, 0x00);
    assert!(r.get_flag(Flag::Z));
    assert!(r.get_flag(Flag::C));
    assert!(r.get_flag(Flag::H));

    let mut r = Registers::new();
    r.a = 0x10;
    r.set_flag(Flag::C, true);
    r.alu_sbc(0x0F);
    assert_eq!(r.a, 0x00);
    assert!(r.get_flag(Flag::Z));
    assert!(r.get_flag(Flag::H));
    assert!(!r.get_flag(Flag::C));

    let mut r = Registers::new();
    r.a = 0x00;
    r.set_flag(Flag::C, true);
    r.alu_sbc(0xFF);
    assert_eq!(r.a, 0x00);
    assert!(r.get_flag(Flag::C));
}

#[test]
fn logic_operations_set_their_fixed_flags() {
    let mut r = Registers::new();
    r.a = 0xF0;
    r.alu_and(0x0F);
    assert_eq!(r.a, 0x00);
    assert_eq!(r.f, 0xA0);

    let mut r = Registers::new();
    r.a = 0xF0;
    r.alu_or(0x0F);
    assert_eq!(r.a, 0xFF);
    assert_eq!(r.f, 0x00);

    let mut r = Registers::new();
    r.a = 0xAA;
    r.alu_xor(0xAA);
    assert_eq!(r.a, 0x00);
    assert_eq!(r.f, 0x80);
}

#[test]
fn cp_compares_without_storing() {
    let mut r = Registers::new();
    r.a = 0x42;
    r.alu_cp(0x42);
    assert_eq!(r.a, 0x42);
    assert_eq!(r.f, 0xC0);
    r.alu_cp(0x43);
    assert_eq!(r.a, 0x42);
    assert_eq!(r.f, 0x70);
    r.alu_cp(0x31);
    assert_eq!(r.f, 0x40);
}

#[test]
fn inc_and_dec_keep_the_carry() {
    let mut r = Registers::new();
    r.set_flag(Flag::C, true);
    assert_eq!(r.alu_inc(0xFF), 0x00);
    assert_eq!(r.f, 0xB0);
    assert_eq!(r.alu_inc(0x0F), 0x10);
    assert_eq!(r.f, 0x30);
    assert_eq!(r.alu_dec(0x01), 0x00);
    assert_eq!(r.f, 0xD0);
    assert_eq!(r.alu_dec(0x00), 0xFF);
    assert_eq!(r.f, 0x70);
    assert_eq!(r.alu_dec(0x10), 0x0F);
    assert_eq!(r.f, 0x70);
}

#[test]
fn sixteen_bit_inc_and_dec_wrap_without_flags() {
    let mut r = Registers::new();
    r.f = 0xF0;
    assert_eq!(r.alu_inc16(0xFFFF), 0x0000);
    assert_eq!(r.alu_dec16(0x0000), 0xFFFF);
    assert_eq!(r.alu_inc16(0x00FF), 0x0100);
    assert_eq!(r.f, 0xF0);
}

#[test]
fn add_hl_carries_from_bit_eleven_and_fifteen() {
    let mut r = Registers::new();
    r.set_hl(0x0FFF);
    r.set_flag(Flag::Z, true);
    r.alu_addhl(0x0001);
    assert_eq!(r.hl(), 0x1000);
    assert!(r.get_flag(Flag::H));
    assert!(!r.get_flag(Flag::C));
    assert!(r.get_flag(Flag::Z));
    assert!(!r.get_flag(Flag::N));

    let mut r = Registers::new();
    r.set_hl(0xFFFF);
    r.alu_addhl(0x0001);
    assert_eq!(r.hl(), 0x0000);
    assert!(r.get_flag(Flag::H));
    assert!(r.get_flag(Flag::C));
    assert!(!r.get_flag(Flag::Z));

    let mut r = Registers::new();
    r.set_hl(0x8000);
    r.alu_addhl(0x8000);
    assert_eq!(r.hl(), 0x0000);
    assert!(!r.get_flag(Flag::H));
    assert!(r.get_flag(Flag::C));
}

#[test]
fn add_sp_sign_extends_its_operand() {
    let mut r = Registers::new();
    r.sp = 0x1000;
    r.alu_addsp(0xFF);
    assert_eq!(r.sp, 0x0FFF);
    assert!(!r.get_flag(Flag::Z));
    assert!(!r.get_flag(Flag::N));
    assert!(!r.get_flag(Flag::H));
    assert!(!r.get_flag(Flag::C));

    let mut r = Registers::new();
    r.sp = 0x00FF;
    r.alu_addsp(0x01);
    assert_eq!(r.sp, 0x0100);
    assert!(r.get_flag(Flag::H));
    assert!(r.get_flag(Flag::C));

    let mut r = Registers::new();
    r.sp = 0x0001;
    r.alu_addsp(0xFE);
    assert_eq!(r.sp, 0xFFFF);

    let mut r = Registers::new();
    r.sp = 0x000F;
    r.f = 0x80;
    r.alu_addsp(0x01);
    assert_eq!(r.sp, 0x0010);
    assert_eq!(r.f, 0x20);
}

#[test]
fn daa_after_addition_gives_packed_decimal() {
    let mut a: u8 = 0;
    while a < 100 {
        let mut b: u8 = 0;
        while b < 100 {
            let mut r = Registers::new();
            r.a = (a / 10) * 16 + a % 10;
            r.alu_add((b / 10) * 16 + b % 10);
            r.alu_daa();
            let sum = (a as u16 + b as u16) % 100;
            assert!(r.a >> 4 <= 9);
            assert!(r.a & 0x0F <= 9);
            assert_eq!(r.a, ((sum / 10) * 16 + sum % 10) as u8);
            assert_eq!(r.get_flag(Flag::C), a as u16 + b as u16 >= 100);
            assert_eq!(r.get_flag(Flag::Z), sum == 0);
            assert!(!r.get_flag(Flag::H));
            b += 1;
        }
        a += 1;
    }
}

#[test]
fn daa_single_values() {
    let mut r = Registers::new();
    r.a = 0x15;
    r.alu_add(0x27);
    assert_eq!(r.a, 0x3C);
    r.alu_daa();
    assert_eq!(r.a, 0x42);

    let mut r = Registers::new();
    r.a = 0x42;
    r.alu_sub(0x15);
    assert_eq!(r.a, 0x2D);
    r.alu_daa();
    assert_eq!(r.a, 0x27);
    assert!(r.get_flag(Flag::N));

    let mut r = Registers::new();
    r.a = 0x99;
    r.alu_add(0x01);
    r.alu_daa();
    assert_eq!(r.a, 0x00);
    assert!(r.get_flag(Flag::C));
    assert!(r.get_flag(Flag::Z));
}

#[test]
fn cpl_ccf_scf() {
    let mut r = Registers::new();
    r.a = 0x35;
    r.alu_cpl();
    assert_eq!(r.a, 0xCA);
    assert_eq!(r.f, 0x60);
    r.alu_scf();
    assert_eq!(r.f, 0x10);
    r.alu_ccf();
    assert_eq!(r.f, 0x00);
    r.alu_ccf();
    assert_eq!(r.f, 0x10);
}

#[test]
fn rotates_and_shifts() {
    let mut r = Registers::new();
    assert_eq!(r.alu_rlc(0x85, true), 0x0B);
    assert_eq!(r.f, 0x10);
    assert_eq!(r.alu_rlc(0x00, true), 0x00);
    assert_eq!(r.f, 0x80);
    assert_eq!(r.alu_rlc(0x00, false), 0x00);
    assert_eq!(r.f, 0x00);
    assert_eq!(r.alu_rrc(0x01, true), 0x80);
    assert_eq!(r.f, 0x10);
    assert_eq!(r.alu_rl(0x80, true), 0x01);
    assert_eq!(r.f, 0x10);
    assert_eq!(r.alu_rl(0x80, true), 0x01);
    assert_eq!(r.alu_rr(0x01, true), 0x80);
    assert_eq!(r.f, 0x10);
    let mut r = Registers::new();
    assert_eq!(r.alu_rr(0x01, true), 0x00);
    assert_eq!(r.f, 0x90);
    assert_eq!(r.alu_sla(0xC1), 0x82);
    assert_eq!(r.f, 0x10);
    assert_eq!(r.alu_sra(0x81), 0xC0);
    assert_eq!(r.f, 0x10);
    assert_eq!(r.alu_srl(0x81), 0x40);
    assert_eq!(r.f, 0x10);
    assert_eq!(r.alu_swap(0xA5), 0x5A);
    assert_eq!(r.f, 0x00);
    assert_eq!(r.alu_swap(0x00), 0x00);
    assert_eq!(r.f, 0x80);
}

#[test]
fn bit_test_and_bit_updates() {
    let mut r = Registers::new();
    r.set_flag(Flag::C, true);
    r.alu_bit(0x80, 7);
    assert_eq!(r.f, 0x30);
    r.alu_bit(0x80, 6);
    assert_eq!(r.f, 0xB0);
    assert!(test_bit(0x10, 4));
    assert!(!test_bit(0x10, 3));
    assert_eq!(clear_bit(0xFF, 0), 0xFE);
    assert_eq!(clear_bit(0xFF, 7), 0x7F);
    assert_eq!(clear_bit(0x00, 3), 0x00);
    assert_eq!(raise_bit(0x00, 3), 0x08);
    assert_eq!(raise_bit(0x08, 3), 0x08);
}
