use gbmu::cpu::block1::execute_instruction_block1;
use gbmu::cpu::registers::R8;
use gbmu::cpu::Cpu;

#[test]
fn test_load_r8_r8() {
    let mut cpu = Cpu::default();
    cpu.set_r8_value(R8::B, 0x42);
    execute_instruction_block1(&mut cpu, 0x40); // LD B, B

    assert_eq!(cpu.get_r8_value(R8::B), 0x42);
    assert_eq!(cpu.pc, 0x0100 + 1);
}

#[test]
fn test_halt() {
    let mut cpu = Cpu::default();
    execute_instruction_block1(&mut cpu, 0x76); // HALT

    assert_eq!(cpu.pc, 0x0100 + 1);
}

#[test]
fn test_load_r8_r8_different_registers() {
    let mut cpu = Cpu::default();
    cpu.set_r8_value(R8::C, 0x55);
    execute_instruction_block1(&mut cpu, 0x41); // LD B, C

    assert_eq!(cpu.get_r8_value(R8::B), 0x55);
    assert_eq!(cpu.pc, 0x0100 + 1);
}
