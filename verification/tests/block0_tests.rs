use gbmu::cpu::block0::{execute_instruction_block0, jr};
use gbmu::mmu::Mmu;
use gbmu::cpu::registers::{R16, R8};
use gbmu::cpu::Cpu;

#[test]
fn test_nop() {
    let mut cpu = Cpu::default();
    execute_instruction_block0(&mut cpu, 0x00); // NOP
    assert_eq!(cpu.pc, 0x0100 + 1);
}

#[test]
fn test_ld_r16_imm16_bc() {
    // The program is staged in WRAM: the ROM range only has the
    // controller's registers behind writes.
    let mut cpu = Cpu::default();
    cpu.pc = 0xC100;
    cpu.bus.write_byte(cpu.pc + 1, 0x34); // LSB
    cpu.bus.write_byte(cpu.pc + 2, 0x12); // MSB
    execute_instruction_block0(&mut cpu, 0x01); // LD BC, 0x1234

    assert_eq!(cpu.registers.get_r16_value(R16::BC), 0x1234);
    assert_eq!(cpu.pc, 0xC100 + 3);
}

#[test]
fn test_ld_r16mem_a() {
    let mut cpu = Cpu::default();
    cpu.registers.set_r16_value(R16::DE, 0xC000);
    cpu.set_r8_value(R8::A, 0x42);
    execute_instruction_block0(&mut cpu, 0x12); // LD [DE], A

    assert_eq!(cpu.bus.read_byte(0xC000), 0x42);
}

#[test]
fn test_ld_a_r16mem() {
    let mut cpu = Cpu::default();
    cpu.registers.set_r16_value(R16::DE, 0xC000);
    cpu.bus.write_byte(0xC000, 0xAB);
    execute_instruction_block0(&mut cpu, 0x1A); // LD A, [DE]

    assert_eq!(cpu.registers.get_a(), 0xAB);
}

#[test]
fn test_ld_mem_imm16_sp() {
    // Both the program and its store target live in WRAM.
    let mut cpu = Cpu::default();
    cpu.pc = 0xC100;

    cpu.bus.write_byte(cpu.pc, 0x08); // opcode LD (n16), SP
    cpu.bus.write_byte(cpu.pc + 1, 0x34); // address low byte
    cpu.bus.write_byte(cpu.pc + 2, 0xD2); // address high byte

    cpu.registers.set_sp(0xC123);

    execute_instruction_block0(&mut cpu, 0x08);

    assert_eq!(cpu.bus.read_byte(0xD234), 0x23); // low byte
    assert_eq!(cpu.bus.read_byte(0xD235), 0xC1); // high byte
}

#[test]
fn test_inc_indirect_hl() {
    let mut cpu = Cpu::default();
    cpu.registers.set_r16_value(R16::HL, 0xC000);
    cpu.bus.write_byte(0xC000, 0x3F);

    execute_instruction_block0(&mut cpu, 0x34); // INC [HL]

    let result = cpu.bus.read_byte(0xC000);
    assert_eq!(result, 0x40);
    assert!(!cpu.registers.get_zero_flag());
    assert!(!cpu.registers.get_subtract_flag());
    assert!(cpu.registers.get_half_carry_flag()); // 0x3F -> 0x40 carries out of the low nibble
}

#[test]
fn test_inc_r16() {
    let mut cpu = Cpu::default();
    cpu.registers.set_r16_value(R16::BC, 0x1234);
    execute_instruction_block0(&mut cpu, 0x03); // INC BC

    assert_eq!(cpu.registers.get_r16_value(R16::BC), 0x1235);
}

#[test]
fn test_dec_r16() {
    let mut cpu = Cpu::default();
    cpu.registers.set_r16_value(R16::BC, 0x1234);
    execute_instruction_block0(&mut cpu, 0x0B); // DEC BC

    assert_eq!(cpu.registers.get_r16_value(R16::BC), 0x1233);
}

#[test]
#[should_panic]
fn test_invalid_instruction_panics() {
    let mut cpu = Cpu::default();
    execute_instruction_block0(&mut cpu, 0xFF).expect("no unique instruction for this opcode");
}

#[test]
fn test_rlca() {
    let mut cpu = Cpu::default();
    cpu.set_r8_value(R8::A, 0b1001_0001); // A = 0x91
    cpu.registers.set_carry_flag(false);

    execute_instruction_block0(&mut cpu, 0x07); // RLCA

    assert_eq!(cpu.registers.get_a(), 0b0010_0011); // rotated left
    assert!(cpu.registers.get_carry_flag()); // bit 7 = 1
    assert!(!cpu.registers.get_zero_flag()); // always false
    assert_eq!(cpu.pc, 0x0100 + 1);
}

#[test]
fn test_rrca() {
    let mut cpu = Cpu::default();
    cpu.set_r8_value(R8::A, 0b0000_0001); // A = 0x01
    cpu.registers.set_carry_flag(false);

    execute_instruction_block0(&mut cpu, 0x0F); // RRCA

    assert_eq!(cpu.registers.get_a(), 0b1000_0000); // rotated right
    assert!(cpu.registers.get_carry_flag()); // bit 0 = 1
    assert!(!cpu.registers.get_zero_flag()); // always false
    assert_eq!(cpu.pc, 0x0100 + 1);
}

#[test]
fn test_rla() {
    let mut cpu = Cpu::default();
    cpu.set_r8_value(R8::A, 0b0101_0101); // A = 0x55
    cpu.registers.set_carry_flag(true); // carry = 1

    execute_instruction_block0(&mut cpu, 0x17); // RLA

    assert_eq!(cpu.registers.get_a(), 0b1010_1011);
    assert!(!cpu.registers.get_carry_flag()); // bit 7 = 0
    assert!(!cpu.registers.get_zero_flag());
    assert_eq!(cpu.pc, 0x0100 + 1);
}

#[test]
fn test_rra() {
    let mut cpu = Cpu::default();
    cpu.set_r8_value(R8::A, 0b0000_0000); // A = 0x00
    cpu.registers.set_carry_flag(true); // carry = 1

    execute_instruction_block0(&mut cpu, 0x1F); // RRA

    assert_eq!(cpu.registers.get_a(), 0b1000_0000); // carry moved into bit 7
    assert!(!cpu.registers.get_carry_flag()); // bit 0 = 0
    assert!(!cpu.registers.get_zero_flag());
    assert_eq!(cpu.pc, 0x0100 + 1);
}

#[test]
fn test_daa_addition_no_carry() {
    let mut cpu = Cpu::default();
    cpu.set_r8_value(R8::A, 0x09);
    cpu.registers.set_subtract_flag(false); // addition
    cpu.registers.set_half_carry_flag(true); // BCD adjust of the low digit
    cpu.registers.set_carry_flag(false);

    execute_instruction_block0(&mut cpu, 0x27); // DAA

    assert_eq!(cpu.get_r8_value(R8::A), 0xF); // 0x09 + 0x06
    assert!(!cpu.registers.get_zero_flag());
    assert!(!cpu.registers.get_half_carry_flag()); // cleared
    assert!(!cpu.registers.get_carry_flag());
    assert_eq!(cpu.pc, 0x0100 + 1);
}

#[test]
fn test_daa_addition_with_carry() {
    let mut cpu = Cpu::default();
    cpu.set_r8_value(R8::A, 0x9A); // A not a valid BCD pair
    cpu.registers.set_subtract_flag(false); // addition
    cpu.registers.set_half_carry_flag(false);
    cpu.registers.set_carry_flag(false);

    execute_instruction_block0(&mut cpu, 0x27); // DAA

    assert_eq!(cpu.get_r8_value(R8::A), 0x00); // 0x9A + 0x66 wraps to 0x00
    assert!(cpu.registers.get_zero_flag());
    assert!(cpu.registers.get_carry_flag()); // overflow raises carry
    assert!(!cpu.registers.get_half_carry_flag());
}

#[test]
fn test_jr_no_condition_positive_offset() {
    let mut cpu = Cpu::default();
    cpu.pc = 0xC100;
    cpu.bus.write_byte(0xC101, 0x05); // offset = +5

    jr(&mut cpu, 0x18, false); // JR unconditional

    assert_eq!(cpu.pc, 0xC100 + 2 + 5);
}

#[test]
fn test_jr_no_condition_negative_offset() {
    let mut cpu = Cpu::default();
    cpu.pc = 0xC100;
    cpu.bus.write_byte(0xC101, 0xFB); // offset = -5 (0xFB as a signed byte)

    jr(&mut cpu, 0x18, false); // JR unconditional

    assert_eq!(cpu.pc, 0xC100 + 2 - 5);
}

#[test]
fn test_jr_condition_true() {
    let mut cpu = Cpu::default();
    cpu.pc = 0xC100;

    cpu.bus.write_byte(0xC101, 0x02); // offset = +2
    cpu.registers.set_zero_flag(true); // Z = 1

    jr(&mut cpu, 0x28, true); // JR Z, +2 (opcode 0x28)

    assert_eq!(cpu.pc, 0xC100 + 2 + 2);
}

#[test]
fn test_jr_condition_false() {
    let mut cpu = Cpu::default();
    cpu.pc = 0xC100;
    cpu.bus.write_byte(0xC101, 0x05); // offset = +5
    cpu.registers.set_zero_flag(false); // Z = 0

    jr(&mut cpu, 0x28, true); // JR Z, +5, untaken

    assert_eq!(cpu.pc, 0xC100 + 2); // no jump
}

#[test]
fn test_jr_condition_carry() {
    let mut cpu = Cpu::default();
    cpu.pc = 0xC100;
    cpu.bus.write_byte(0xC101, 0x03); // offset = +3
    cpu.registers.set_carry_flag(true);

    jr(&mut cpu, 0x38, true); // JR C, +3

    assert_eq!(cpu.pc, 0xC100 + 2 + 3);
}

#[test]
fn test_jr_condition_not_carry() {
    let mut cpu = Cpu::default();
    cpu.pc = 0xC100;
    cpu.bus.write_byte(0xC101, 0x03); // offset = +3
    cpu.registers.set_carry_flag(false);

    jr(&mut cpu, 0x38, true); // JR C, +3, condition false

    assert_eq!(cpu.pc, 0xC100 + 2);
}

#[test]
fn test_load_a_r16mem_hl_increment() {
    let mut cpu = Cpu::default();
    cpu.registers.set_r16_value(R16::HL, 0xC000);
    cpu.bus.write_byte(0xC000, 0x42);
    execute_instruction_block0(&mut cpu, 0x2A); // LD A, [HL+]

    assert_eq!(cpu.registers.get_a(), 0x42);
    assert_eq!(cpu.registers.get_r16_value(R16::HL), 0xC001); // HL incremented
}

#[test]
fn test_load_a_r16mem_hl_decrement() {
    let mut cpu = Cpu::default();
    cpu.registers.set_r16_value(R16::HL, 0xC001);
    cpu.bus.write_byte(0xC001, 0x42);
    execute_instruction_block0(&mut cpu, 0x3A); // LD A, [HL-]

    assert_eq!(cpu.registers.get_a(), 0x42);
    assert_eq!(cpu.registers.get_r16_value(R16::HL), 0xC000); // HL decremented
}

#[test]
fn test_load_a_r16mem_standard() {
    let mut cpu = Cpu::default();
    cpu.registers.set_r16_value(R16::DE, 0xC000);
    cpu.bus.write_byte(0xC000, 0x42);
    execute_instruction_block0(&mut cpu, 0x1A); // LD A, [DE]

    assert_eq!(cpu.registers.get_a(), 0x42);
    assert_eq!(cpu.registers.get_r16_value(R16::DE), 0xC000); // DE unchanged
}

#[test]
fn test_load_a_r16mem_hl_boundary_increment() {
    let mut cpu = Cpu::default();
    cpu.registers.set_r16_value(R16::HL, 0xFFFF);
    cpu.bus.write_byte(0xFFFF, 0x42);
    execute_instruction_block0(&mut cpu, 0x2A); // LD A, [HL+]

    // 0xFFFF is the IE register: only its low five bits are state.
    assert_eq!(cpu.registers.get_a(), 0x02);
    assert_eq!(cpu.registers.get_r16_value(R16::HL), 0x0000); // HL wraps around
}

#[test]
fn test_load_a_r16mem_hl_boundary_decrement() {
    // Address 0 is ROM, so the byte comes from the cartridge image.
    let mut cpu = Cpu::new(Mmu::new(&vec![0x42]));
    cpu.registers.set_r16_value(R16::HL, 0x0000);
    execute_instruction_block0(&mut cpu, 0x3A); // LD A, [HL-]

    assert_eq!(cpu.registers.get_a(), 0x42);
    assert_eq!(cpu.registers.get_r16_value(R16::HL), 0xFFFF); // HL wraps around
}
