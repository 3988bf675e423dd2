use gbmu::cpu::block3::execute_instruction_block3;
use gbmu::cpu::registers::{R16, R8};
use gbmu::cpu::Cpu;

#[test]
fn test_add_a_imm8() {
    let mut cpu = Cpu::default();
    cpu.pc = 0xC100; // the program is staged in WRAM
    cpu.set_r8_value(R8::A, 0x10);
    cpu.bus.write_byte(cpu.pc + 1, 0x20);
    execute_instruction_block3(&mut cpu, 0xC6); // ADD A, imm8

    assert_eq!(cpu.get_r8_value(R8::A), 0x30);
    assert_eq!(cpu.pc, 0xC100 + 2);
}

#[test]
fn test_adc_a_imm8() {
    let mut cpu = Cpu::default();
    cpu.pc = 0xC100; // the program is staged in WRAM
    cpu.set_r8_value(R8::A, 0x10);
    cpu.bus.write_byte(cpu.pc + 1, 0x20);
    cpu.registers.set_carry_flag(true);
    execute_instruction_block3(&mut cpu, 0xCE); // ADC A, imm8

    assert_eq!(cpu.get_r8_value(R8::A), 0x31);
    assert_eq!(cpu.pc, 0xC100 + 2);
}

#[test]
fn test_sub_a_imm8() {
    let mut cpu = Cpu::default();
    cpu.pc = 0xC100; // the program is staged in WRAM
    cpu.set_r8_value(R8::A, 0x30);
    cpu.bus.write_byte(cpu.pc + 1, 0x10);
    execute_instruction_block3(&mut cpu, 0xD6); // SUB A, imm8

    assert_eq!(cpu.get_r8_value(R8::A), 0x20);
    assert_eq!(cpu.pc, 0xC100 + 2);
}

#[test]
fn test_sbc_a_imm8() {
    let mut cpu = Cpu::default();
    cpu.pc = 0xC100; // the program is staged in WRAM
    cpu.set_r8_value(R8::A, 0x30);
    cpu.bus.write_byte(cpu.pc + 1, 0x10);
    cpu.registers.set_carry_flag(true);
    execute_instruction_block3(&mut cpu, 0xDE); // SBC A, imm8

    assert_eq!(cpu.get_r8_value(R8::A), 0x1F);
    assert_eq!(cpu.pc, 0xC100 + 2);
}

#[test]
fn test_and_a_imm8() {
    let mut cpu = Cpu::default();
    cpu.pc = 0xC100; // the program is staged in WRAM
    cpu.set_r8_value(R8::A, 0b1100);
    cpu.bus.write_byte(cpu.pc + 1, 0b1010);
    execute_instruction_block3(&mut cpu, 0xE6); // AND A, imm8

    assert_eq!(cpu.get_r8_value(R8::A), 0b1000);
    assert_eq!(cpu.pc, 0xC100 + 2);
}

#[test]
fn test_xor_a_imm8() {
    let mut cpu = Cpu::default();
    cpu.pc = 0xC100; // the program is staged in WRAM
    cpu.set_r8_value(R8::A, 0b1100);
    cpu.bus.write_byte(cpu.pc + 1, 0b1010);
    execute_instruction_block3(&mut cpu, 0xEE); // XOR A, imm8

    assert_eq!(cpu.get_r8_value(R8::A), 0b0110);
    assert_eq!(cpu.pc, 0xC100 + 2);
}

#[test]
fn test_or_a_imm8() {
    let mut cpu = Cpu::default();
    cpu.pc = 0xC100; // the program is staged in WRAM
    cpu.set_r8_value(R8::A, 0b1100);
    cpu.bus.write_byte(cpu.pc + 1, 0b1010);
    execute_instruction_block3(&mut cpu, 0xF6); // OR A, imm8

    assert_eq!(cpu.get_r8_value(R8::A), 0b1110);
    assert_eq!(cpu.pc, 0xC100 + 2);
}

#[test]
fn test_cp_a_imm8() {
    let mut cpu = Cpu::default();
    cpu.pc = 0xC100; // the program is staged in WRAM
    cpu.set_r8_value(R8::A, 0x20);
    cpu.bus.write_byte(cpu.pc + 1, 0x20);
    execute_instruction_block3(&mut cpu, 0xFE); // CP A, imm8

    assert!(cpu.registers.get_zero_flag());
    assert_eq!(cpu.pc, 0xC100 + 2);
}

#[test]
fn test_jp_imm16() {
    let mut cpu = Cpu::default();
    cpu.pc = 0xC100; // the program is staged in WRAM
    cpu.bus.write_byte(cpu.pc + 1, 0x34); // LSB
    cpu.bus.write_byte(cpu.pc + 2, 0x12); // MSB
    execute_instruction_block3(&mut cpu, 0xC3); // JP imm16

    assert_eq!(cpu.pc, 0x1234);
}

#[test]
fn test_jp_cond_true() {
    let mut cpu = Cpu::default();
    cpu.pc = 0xC100; // the program is staged in WRAM
    cpu.bus.write_byte(cpu.pc + 1, 0x34); // LSB
    cpu.bus.write_byte(cpu.pc + 2, 0x12); // MSB
    cpu.registers.set_zero_flag(true); // condition Z = true
    execute_instruction_block3(&mut cpu, 0xCA); // JP Z, imm16

    assert_eq!(cpu.pc, 0x1234);
}

#[test]
fn test_jp_cond_false() {
    let mut cpu = Cpu::default();
    cpu.pc = 0xC100; // the program is staged in WRAM
    cpu.bus.write_byte(cpu.pc + 1, 0x34); // LSB
    cpu.bus.write_byte(cpu.pc + 2, 0x12); // MSB
    cpu.registers.set_zero_flag(false); // condition Z = false
    execute_instruction_block3(&mut cpu, 0xCA); // JP Z, imm16

    assert_eq!(cpu.pc, 0xC100 + 3); // no jump
}

#[test]
fn test_jp_hl() {
    let mut cpu = Cpu::default();
    cpu.registers.set_r16_value(R16::HL, 0x1234);
    execute_instruction_block3(&mut cpu, 0xE9); // JP HL

    assert_eq!(cpu.pc, 0x1234);
}

#[test]
fn test_call_imm16() {
    let mut cpu = Cpu::default();
    cpu.pc = 0xC100; // the program is staged in WRAM
    cpu.bus.write_byte(cpu.pc + 1, 0x34); // LSB
    cpu.bus.write_byte(cpu.pc + 2, 0x12); // MSB
    execute_instruction_block3(&mut cpu, 0xCD); // CALL imm16

    assert_eq!(cpu.pc, 0x1234);
    assert_eq!(cpu.registers.pop_sp(&cpu.bus), 0xC103);
}

#[test]
fn test_call_cond_true() {
    let mut cpu = Cpu::default();
    cpu.pc = 0xC100; // the program is staged in WRAM
    cpu.bus.write_byte(cpu.pc + 1, 0x34); // LSB
    cpu.bus.write_byte(cpu.pc + 2, 0x12); // MSB
    cpu.registers.set_carry_flag(true); // condition C = true
    execute_instruction_block3(&mut cpu, 0xDC); // CALL C, imm16

    assert_eq!(cpu.pc, 0x1234);
    assert_eq!(cpu.registers.pop_sp(&cpu.bus), 0xC103);
}

#[test]
fn test_call_cond_false() {
    let mut cpu = Cpu::default();
    cpu.pc = 0xC100; // the program is staged in WRAM
    cpu.bus.write_byte(cpu.pc + 1, 0x34); // LSB
    cpu.bus.write_byte(cpu.pc + 2, 0x12); // MSB
    cpu.registers.set_carry_flag(false); // condition C = false
    execute_instruction_block3(&mut cpu, 0xDC); // CALL C, imm16

    assert_eq!(cpu.pc, 0xC100 + 3); // no jump
}

#[test]
fn test_rst_tgt3() {
    let mut cpu = Cpu::default();
    execute_instruction_block3(&mut cpu, 0xC7); // RST 0x00

    assert_eq!(cpu.pc, 0x0000);
}

#[test]
fn test_pop_r16() {
    let mut cpu = Cpu::default();
    cpu.registers.push_sp(&mut cpu.bus, 0x1234);
    execute_instruction_block3(&mut cpu, 0xC1); // POP BC

    assert_eq!(cpu.registers.get_r16_value(R16::BC), 0x1234);
}

#[test]
fn test_push_r16() {
    let mut cpu = Cpu::default();
    cpu.registers.set_r16_value(R16::DE, 0x5678);
    cpu.registers.push_sp(&mut cpu.bus, 0x0100);
    execute_instruction_block3(&mut cpu, 0xD5); // PUSH DE

    assert_eq!(cpu.registers.pop_sp(&cpu.bus), 0x5678);
}

#[test]
fn test_add_sp_imm8_positive() {
    let mut cpu = Cpu::default();
    cpu.pc = 0xC100; // the program is staged in WRAM
    cpu.registers.set_sp(0xFFF0);
    cpu.bus.write_byte(cpu.pc + 1, 0x10); // imm8 = +16
    execute_instruction_block3(&mut cpu, 0xE8); // ADD SP, imm8

    assert_eq!(cpu.registers.get_sp(), 0x0000); // overflow wraps
}

#[test]
fn test_add_sp_imm8_negative() {
    let mut cpu = Cpu::default();
    cpu.pc = 0xC100; // the program is staged in WRAM
    cpu.registers.set_sp(0x0005);
    cpu.bus.write_byte(cpu.pc + 1, 0xFB); // imm8 = -5 (0xFB as a signed byte)
    execute_instruction_block3(&mut cpu, 0xE8); // ADD SP, imm8

    assert_eq!(cpu.registers.get_sp(), 0x0000);
}

#[test]
fn test_ld_hl_sp_add_imm8() {
    let mut cpu = Cpu::default();
    cpu.pc = 0xC100; // the program is staged in WRAM
    cpu.registers.set_sp(0xFFF0);
    cpu.bus.write_byte(cpu.pc + 1, 0x10); // imm8 = +16
    execute_instruction_block3(&mut cpu, 0xF8); // LD HL, SP + imm8

    assert_eq!(cpu.registers.get_r16_value(R16::HL), 0x0000); // overflow wraps
}

#[test]
fn test_ld_sp_hl() {
    let mut cpu = Cpu::default();
    cpu.registers.set_r16_value(R16::HL, 0x1234);
    execute_instruction_block3(&mut cpu, 0xF9); // LD SP, HL

    assert_eq!(cpu.registers.get_sp(), 0x1234);
}

#[test]
fn test_ldh_a_c() {
    let mut cpu = Cpu::default();
    cpu.set_r8_value(R8::C, 0x10);
    cpu.bus.write_byte(0xFF10, 0x42);
    execute_instruction_block3(&mut cpu, 0xF2); // LDH A, [C]

    assert_eq!(cpu.get_r8_value(R8::A), 0x42);
    assert_eq!(cpu.pc, 0x0100 + 2);
}

#[test]
fn test_pop_af() {
    let mut cpu = Cpu::default();

    // Push a value onto the stack.
    cpu.registers.push_sp(&mut cpu.bus, 0x1234);

    // Run POP AF.
    execute_instruction_block3(&mut cpu, 0xF1); // POP AF

    // AF holds the popped value modulo the always-zero low nibble of F.
    assert_eq!(cpu.registers.get_af(), 0x1230);

    // The program counter moved past the one-byte instruction.
    assert_eq!(cpu.pc, 0x0100 + 1);
}

#[test]
fn test_rst_38h() {
    let mut cpu = Cpu::default();
    execute_instruction_block3(&mut cpu, 0xFF); // RST 38h

    assert_eq!(cpu.pc, 0x0038);
}

#[test]
fn rst_pushes_the_return_address() {
    // RST 0x10 from WRAM: the address of the next instruction goes onto the
    // stack, high byte above low, and PC lands on the vector.
    let mut cpu = Cpu::default();
    cpu.pc = 0xC200;
    cpu.registers.set_sp(0xFFFE);
    execute_instruction_block3(&mut cpu, 0xD7); // RST 0x10

    assert_eq!(cpu.pc, 0x0010);
    assert_eq!(cpu.registers.get_sp(), 0xFFFC);
    assert_eq!(cpu.bus.read_byte(0xFFFD), 0xC2); // high byte of 0xC201
    assert_eq!(cpu.bus.read_byte(0xFFFC), 0x01); // low byte of 0xC201
    assert_eq!(cpu.registers.pop_sp(&cpu.bus), 0xC201);
}
