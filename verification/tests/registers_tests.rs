use gbmu::cpu::conditions::Cond;
use gbmu::cpu::flags_registers::FlagsRegister;
use gbmu::cpu::registers::{Registers, R16, R8};

#[test]
fn flags_pack_into_the_upper_nibble() {
    let f = FlagsRegister { zero: true, subtract: false, half_carry: true, carry: false };
    assert_eq!(f.to_byte(), 0xA0);
    assert_eq!(FlagsRegister::from_byte(0xA0), f);
    // The low nibble of a written byte is discarded.
    assert_eq!(FlagsRegister::from_byte(0xAF), f);
}

#[test]
fn add_to_r8_sets_carry_and_half_carry() {
    let mut regs = Registers::default();
    regs.set_r8_value(R8::A, 0x3C);
    regs.add_to_r8(R8::A, 0xFF, false);
    // 0x3C + 0xFF wraps to 0x3B with both carries out.
    assert_eq!(regs.get_a(), 0x3B);
    assert!(!regs.get_zero_flag());
    assert!(!regs.get_subtract_flag());
    assert!(regs.get_half_carry_flag());
    assert!(regs.get_carry_flag());
}

#[test]
fn adc_folds_the_carry_in() {
    let mut regs = Registers::default();
    regs.set_r8_value(R8::A, 0xFF);
    regs.set_carry_flag(true);
    regs.add_to_r8(R8::A, 0x00, true);
    assert_eq!(regs.get_a(), 0x00);
    assert!(regs.get_zero_flag());
    assert!(regs.get_carry_flag());
}

#[test]
fn sub_to_r8_sets_borrow_flags() {
    let mut regs = Registers::default();
    regs.set_r8_value(R8::A, 0x10);
    regs.sub_to_r8(R8::A, 0x20, false);
    // 0x10 - 0x20 wraps to 0xF0 with a full borrow and no nibble borrow.
    assert_eq!(regs.get_a(), 0xF0);
    assert!(regs.get_subtract_flag());
    assert!(regs.get_carry_flag());
    assert!(!regs.get_half_carry_flag());
}

#[test]
fn add_to_r16_keeps_zero_and_sets_bit11_carry() {
    let mut regs = Registers::default();
    regs.set_zero_flag(true);
    regs.set_hl(0x0FFF);
    regs.add_to_r16(R16::HL, 0x0001);
    assert_eq!(regs.get_hl(), 0x1000);
    assert!(regs.get_zero_flag()); // preserved
    assert!(regs.get_half_carry_flag()); // carry out of bit 11
    assert!(!regs.get_carry_flag());
}

#[test]
fn add_sp_moves_by_the_signed_offset() {
    let mut regs = Registers::default();
    regs.set_sp(0x0100);
    regs.add_sp_i8(-1);
    assert_eq!(regs.get_sp(), 0x00FF);
    assert!(!regs.get_zero_flag());
    assert!(!regs.get_subtract_flag());
}

#[test]
fn pair_views_split_and_join_bytes() {
    let mut regs = Registers::default();
    regs.set_bc(0xA1B2);
    assert_eq!(regs.get_b(), 0xA1);
    assert_eq!(regs.get_c(), 0xB2);
    assert_eq!(regs.get_bc(), 0xA1B2);
    regs.set_de(0x1234);
    assert_eq!(regs.get_r16_value(R16::DE), 0x1234);
    regs.set_r16_value(R16::SP, 0x8000);
    assert_eq!(regs.get_sp(), 0x8000);
}

#[test]
fn conditions_test_the_right_flags() {
    let mut regs = Registers::default();
    regs.set_zero_flag(true);
    regs.set_carry_flag(false);
    assert!(regs.check_condition(Cond::Z));
    assert!(!regs.check_condition(Cond::NZ));
    assert!(regs.check_condition(Cond::NC));
    assert!(!regs.check_condition(Cond::C));
    assert!(regs.check_condition(Cond::Always));
    assert!(Cond::from(2).test(true, false));
}

#[test]
fn register_shifts_and_swap_report_the_outgoing_bit() {
    let mut regs = Registers::default();
    regs.set_r8_value(R8::B, 0x81);
    regs.shift_left(R8::B);
    assert_eq!(regs.get_r8_value(R8::B), 0x02);
    assert!(regs.get_carry_flag());

    regs.set_r8_value(R8::C, 0x81);
    regs.shift_right(R8::C, true);
    assert_eq!(regs.get_r8_value(R8::C), 0xC0);
    assert!(regs.get_carry_flag());

    regs.set_r8_value(R8::D, 0x2F);
    regs.swap(R8::D);
    assert_eq!(regs.get_r8_value(R8::D), 0xF2);
    assert!(!regs.get_carry_flag());
}
