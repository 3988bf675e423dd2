use gbmu::cpu::block2::match_instruction_block2;
use gbmu::cpu::registers::R8;
use gbmu::cpu::Cpu;

#[test]
fn test_add_a_r8() {
    let mut cpu = Cpu::default();
    cpu.set_r8_value(R8::A, 0x10);
    cpu.set_r8_value(R8::B, 0x20);
    match_instruction_block2(&mut cpu, 0x80); // ADD A, B

    assert_eq!(cpu.get_r8_value(R8::A), 0x30);
    assert_eq!(cpu.pc, 0x0100 + 1);
}

#[test]
fn test_adc_a_r8() {
    let mut cpu = Cpu::default();
    cpu.set_r8_value(R8::A, 0x10);
    cpu.set_r8_value(R8::C, 0x20);
    cpu.registers.set_carry_flag(true);
    match_instruction_block2(&mut cpu, 0x49); // ADC A, C

    assert_eq!(cpu.get_r8_value(R8::A), 0x31);
    assert_eq!(cpu.pc, 0x0100 + 1);
}

#[test]
fn test_sub_a_r8() {
    let mut cpu = Cpu::default();
    cpu.set_r8_value(R8::A, 0x30);
    cpu.set_r8_value(R8::C, 0x10);
    match_instruction_block2(&mut cpu, 0x91); // SUB A, C

    assert_eq!(cpu.get_r8_value(R8::A), 0x20);
    assert_eq!(cpu.pc, 0x0100 + 1);
}

#[test]
fn test_sbc_a_r8() {
    let mut cpu = Cpu::default();
    cpu.set_r8_value(R8::A, 0x30);
    cpu.set_r8_value(R8::E, 0x10);
    cpu.registers.set_carry_flag(true);
    match_instruction_block2(&mut cpu, 0x9B); // SBC A, E

    assert_eq!(cpu.get_r8_value(R8::A), 0x1F);
    assert_eq!(cpu.pc, 0x0100 + 1);
}

#[test]
fn test_and_a_r8() {
    let mut cpu = Cpu::default();
    cpu.set_r8_value(R8::A, 0b1100);
    cpu.set_r8_value(R8::D, 0b1010);
    match_instruction_block2(&mut cpu, 0xA2); // AND A, D

    assert_eq!(cpu.get_r8_value(R8::A), 0b1000);
    assert_eq!(cpu.pc, 0x0100 + 1);
}

#[test]
fn test_xor_a_r8() {
    let mut cpu = Cpu::default();
    cpu.set_r8_value(R8::A, 0b1100);
    cpu.set_r8_value(R8::E, 0b1010);
    match_instruction_block2(&mut cpu, 0xAB); // XOR A, E

    assert_eq!(cpu.get_r8_value(R8::A), 0b0110);
    assert_eq!(cpu.pc, 0x0100 + 1);
}

#[test]
fn test_or_a_r8() {
    let mut cpu = Cpu::default();
    cpu.set_r8_value(R8::A, 0b1100);
    cpu.set_r8_value(R8::H, 0b1010);
    match_instruction_block2(&mut cpu, 0xB4); // OR A, H

    assert_eq!(cpu.get_r8_value(R8::A), 0b1110);
    assert_eq!(cpu.pc, 0x0100 + 1);
}

#[test]
fn test_cp_a_r8() {
    let mut cpu = Cpu::default();
    cpu.set_r8_value(R8::A, 0x20);
    cpu.set_r8_value(R8::L, 0x20);
    match_instruction_block2(&mut cpu, 0xBD); // CP A, L

    assert!(cpu.registers.get_zero_flag());
    assert_eq!(cpu.pc, 0x0100 + 1);
}

#[test]
fn cp_half_carry_reports_the_nibble_borrow() {
    // A=0x0F against 0x01: the low nibble does not borrow, so H is clear.
    let mut cpu = Cpu::default();
    cpu.set_r8_value(R8::A, 0x0F);
    cpu.set_r8_value(R8::B, 0x01);
    match_instruction_block2(&mut cpu, 0xB8); // CP A, B
    assert!(!cpu.registers.get_half_carry_flag());
    assert!(!cpu.registers.get_carry_flag());

    // A=0x10 against 0x01: the low nibble borrows, so H is set.
    let mut cpu = Cpu::default();
    cpu.set_r8_value(R8::A, 0x10);
    cpu.set_r8_value(R8::B, 0x01);
    match_instruction_block2(&mut cpu, 0xB8); // CP A, B
    assert!(cpu.registers.get_half_carry_flag());
    assert!(!cpu.registers.get_carry_flag());
}
