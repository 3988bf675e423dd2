use gbmu::cpu::cpu::CPU;
use gbmu::instructions::block0::match_instruction_block0;
use gbmu::instructions::execute_instruction;
use gbmu::registers::{R16, R8};

#[test]
fn test_ld_r16_imm16_for_all_registers() {
    let test_cases = vec![
        (0x01, "BC"), // LD BC, imm16
        (0x11, "DE"), // LD DE, imm16
        (0x21, "HL"), // LD HL, imm16
    ];

    for (opcode, reg_name) in test_cases {
        let mut cpu = CPU::default();
        // The ROM range of this bus is read-only, so the staged program
        // lives in WRAM.
        cpu.pc = 0xC000;

        // The immediate to load: 0xABCD.
        let lsb = 0xCD;
        let msb = 0xAB;
        let expected = 0xABCD;

        // Write the instruction and the following imm16 into memory.
        cpu.bus.write_byte(0xC000, opcode);
        cpu.bus.write_byte(0xC001, lsb);
        cpu.bus.write_byte(0xC002, msb);

        // Dispatch it.
        execute_instruction(&mut cpu, opcode);

        // The right value landed in the right register pair.
        let value = match reg_name {
            "BC" => cpu.registers.get_bc(),
            "DE" => cpu.registers.get_de(),
            "HL" => cpu.registers.get_hl(),
            _ => panic!("Unknown register name: {}", reg_name),
        };

        assert_eq!(
            value, expected,
            "Expected {} to be 0x{:04X}, got 0x{:04X}",
            reg_name, expected, value
        );
    }
}

#[test]
fn block0_test_nop() {
    let mut cpu = CPU::default();
    match_instruction_block0(&mut cpu, 0x00); // NOP
    assert_eq!(cpu.pc, 1);
}

#[test]
fn block0_test_ld_r16_imm16_bc() {
    let mut cpu = CPU::default();
    cpu.pc = 0xC000;
    cpu.bus.write_byte(0xC001, 0x34); // LSB
    cpu.bus.write_byte(0xC002, 0x12); // MSB
    match_instruction_block0(&mut cpu, 0x01); // LD BC, 0x1234

    assert_eq!(cpu.registers.get_r16_value(R16::BC), 0x1234);
    assert_eq!(cpu.pc, 0xC003);
}

#[test]
fn block0_test_ld_r16mem_a() {
    let mut cpu = CPU::default();
    cpu.registers.set_r16_value(R16::DE, 0xC000);
    cpu.registers.set_r8_value(R8::A, 0x42);
    match_instruction_block0(&mut cpu, 0x12); // LD [DE], A

    assert_eq!(cpu.bus.read_byte(0xC000), 0x42);
}

#[test]
fn block0_test_ld_a_r16mem() {
    let mut cpu = CPU::default();
    cpu.registers.set_r16_value(R16::DE, 0xC000);
    cpu.bus.write_byte(0xC000, 0xAB);
    match_instruction_block0(&mut cpu, 0x1A); // LD A, [DE]

    assert_eq!(cpu.registers.get_a(), 0xAB);
}

#[test]
fn block0_test_inc_r16() {
    let mut cpu = CPU::default();
    cpu.registers.set_r16_value(R16::BC, 0x1234);
    match_instruction_block0(&mut cpu, 0x03); // INC BC

    assert_eq!(cpu.registers.get_r16_value(R16::BC), 0x1235);
}

#[test]
fn block0_test_dec_r16() {
    let mut cpu = CPU::default();
    cpu.registers.set_r16_value(R16::BC, 0x1234);
    match_instruction_block0(&mut cpu, 0x0B); // DEC BC

    assert_eq!(cpu.registers.get_r16_value(R16::BC), 0x1233);
}

#[test]
#[should_panic]
fn block0_test_invalid_instruction_panics() {
    let mut cpu = CPU::default();
    match_instruction_block0(&mut cpu, 0xFF).expect("no unique instruction for this opcode");
}
