use gbmu::cpu::block_prefix::execute_instruction_block_prefix;
use gbmu::cpu::registers::{R16, R8};
use gbmu::cpu::Cpu;

#[test]
fn test_rlc_r8() {
    let mut cpu = Cpu::default();
    cpu.set_r8_value(R8::B, 0b1000_0001);
    execute_instruction_block_prefix(&mut cpu, 0x00); // RLC B

    assert_eq!(cpu.get_r8_value(R8::B), 0b0000_0011);
    assert!(cpu.registers.get_carry_flag());
}

#[test]
fn test_rrc_r8() {
    let mut cpu = Cpu::default();
    cpu.set_r8_value(R8::B, 0b00000001);
    execute_instruction_block_prefix(&mut cpu, 0x08); // RRC B

    assert_eq!(cpu.get_r8_value(R8::B), 0b10000000);
    assert!(cpu.registers.get_carry_flag());
}

#[test]
fn test_rl_r8() {
    let mut cpu = Cpu::default();
    cpu.set_r8_value(R8::D, 0b0101_0101);
    cpu.registers.set_carry_flag(true);
    execute_instruction_block_prefix(&mut cpu, 0x12); // RL D

    assert_eq!(cpu.get_r8_value(R8::D), 0b1010_1011);
    assert!(!cpu.registers.get_carry_flag());
}

#[test]
fn test_rr_r8() {
    let mut cpu = Cpu::default();
    cpu.set_r8_value(R8::E, 0b0000_0001);
    cpu.registers.set_carry_flag(true);
    execute_instruction_block_prefix(&mut cpu, 0x1B); // RR E

    assert_eq!(cpu.get_r8_value(R8::E), 0b1000_0000);
    assert!(cpu.registers.get_carry_flag());
}

#[test]
fn test_sla_r8() {
    let mut cpu = Cpu::default();
    cpu.set_r8_value(R8::H, 0b1000_0000);
    execute_instruction_block_prefix(&mut cpu, 0x24); // SLA H

    assert_eq!(cpu.get_r8_value(R8::H), 0b0000_0000);
    assert!(cpu.registers.get_carry_flag());
}

#[test]
fn test_sra_r8() {
    let mut cpu = Cpu::default();
    cpu.set_r8_value(R8::L, 0b1000_0001);
    execute_instruction_block_prefix(&mut cpu, 0x2D); // SRA L

    assert_eq!(cpu.get_r8_value(R8::L), 0b1100_0000);
    assert!(cpu.registers.get_carry_flag());
}

#[test]
fn test_swap_r8() {
    let mut cpu = Cpu::default();
    cpu.set_r8_value(R8::A, 0xF0);
    execute_instruction_block_prefix(&mut cpu, 0x37); // SWAP A

    assert_eq!(cpu.get_r8_value(R8::A), 0x0F);
}

#[test]
fn test_srl_r8() {
    let mut cpu = Cpu::default();
    cpu.set_r8_value(R8::B, 0b0000_0010);
    execute_instruction_block_prefix(&mut cpu, 0x38); // SRL B

    assert_eq!(cpu.get_r8_value(R8::B), 0b0000_0001);
    assert!(!cpu.registers.get_carry_flag());
}

#[test]
fn test_bit_b3_r8() {
    let mut cpu = Cpu::default();
    cpu.set_r8_value(R8::D, 0b0000_1000);
    execute_instruction_block_prefix(&mut cpu, 0x5A); // BIT 3, D

    assert!(!cpu.registers.get_zero_flag());
}

#[test]
fn test_res_b3_r8() {
    let mut cpu = Cpu::default();
    cpu.set_r8_value(R8::E, 0b0000_1010); // bit 3 starts set
    execute_instruction_block_prefix(&mut cpu, 0x9B); // RES 3, E

    assert_eq!(cpu.get_r8_value(R8::E), 0b0000_0010); // bit 3 reset to 0
}

#[test]
fn test_res_b3_r8_6_c() {
    let mut cpu = Cpu::default();
    cpu.set_r8_value(R8::C, 0b0100_0000); // bit 6 starts set
    execute_instruction_block_prefix(&mut cpu, 0xB1); // RES 6, C

    assert_eq!(cpu.get_r8_value(R8::C), 0b0000_0000); // bit 6 reset to 0
}

#[test]
fn test_set_b3_r8() {
    let mut cpu = Cpu::default();
    cpu.set_r8_value(R8::H, 0b0000_0000);
    execute_instruction_block_prefix(&mut cpu, 0xDC); // SET 3, H

    assert_eq!(cpu.get_r8_value(R8::H), 0b0000_1000);
}

#[test]
fn test_set_b3_r8_7_d() {
    let mut cpu = Cpu::default();
    cpu.set_r8_value(R8::H, 0b0000_0000);
    execute_instruction_block_prefix(&mut cpu, 0xDC); // SET 3, H

    assert_eq!(cpu.get_r8_value(R8::H), 0b0000_1000);
}

#[test]
fn prefixed_ops_reach_the_memory_operand() {
    // SWAP (HL) works on the byte at HL, not on a register cell.
    let mut cpu = Cpu::default();
    cpu.registers.set_r16_value(R16::HL, 0xC000);
    cpu.bus.write_byte(0xC000, 0xF0);
    execute_instruction_block_prefix(&mut cpu, 0x36); // SWAP (HL)
    assert_eq!(cpu.bus.read_byte(0xC000), 0x0F);

    // RLC (HL) likewise.
    cpu.bus.write_byte(0xC000, 0b1000_0001);
    execute_instruction_block_prefix(&mut cpu, 0x06); // RLC (HL)
    assert_eq!(cpu.bus.read_byte(0xC000), 0b0000_0011);
    assert!(cpu.registers.get_carry_flag());
}

#[test]
fn prefixed_rotate_of_a_sets_zero_from_the_result() {
    // CB RLC A is not the one-byte RLCA: a zero result sets Z.
    let mut cpu = Cpu::default();
    cpu.set_r8_value(R8::A, 0x00);
    execute_instruction_block_prefix(&mut cpu, 0x07); // RLC A
    assert_eq!(cpu.get_r8_value(R8::A), 0x00);
    assert!(cpu.registers.get_zero_flag());
}
