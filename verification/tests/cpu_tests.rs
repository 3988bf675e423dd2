use gbmu::cpu::registers::R8;
use gbmu::cpu::Cpu;
use gbmu::mmu::interrupt::Interrupt;
use gbmu::mmu::Mmu;

// interrupts tests
#[test]
fn test_cpu_services_timer_interrupt() {
    // 1) Set up the MMU and enable/request the timer interrupt by hand.
    let mut mmu = Mmu::new(&Vec::new());
    // Enable only Timer (bit 2) in IE.
    mmu.write_byte(0xFFFF, Interrupt::Timer.mask());
    // Request Timer by writing to IF.
    mmu.write_byte(0xFF0F, Interrupt::Timer.mask());

    // 2) Create the CPU owning that MMU.
    let mut cpu = Cpu::new(mmu);

    // 3) Initialise PC and SP.
    cpu.pc = 0x1234;
    cpu.registers.set_sp(0xFFFE);
    // Allow interrupts immediately.
    cpu.ime = true;

    // 4) Perform one step: should service the timer interrupt.
    cpu.step();

    // 5) After service, SP must have decreased by 2.
    assert_eq!(cpu.registers.get_sp(), 0xFFFC);

    // 6) Check the two bytes on the stack (little-endian: low then high).
    // Low byte of 0x1234 at address 0xFFFC.
    assert_eq!(cpu.bus.read_byte(0xFFFC), 0x34);
    // High byte of 0x1234 at address 0xFFFD.
    assert_eq!(cpu.bus.read_byte(0xFFFD), 0x12);

    // 7) The CPU should have jumped to the timer vector (0x50).
    assert_eq!(cpu.pc, Interrupt::Timer.vector());

    // 8) IME should now be cleared.
    assert!(!cpu.ime);

    // 9) IF's timer bit must have been cleared.
    assert_eq!(cpu.bus.read_byte(0xFF0F) & Interrupt::Timer.mask(), 0);
}

// HALT tests
#[test]
fn test_halt_opcode_sets_halted_and_advances_pc() {
    // Setup: place a HALT (0x76) in VRAM.
    let mut mmu = Mmu::new(&Vec::new());
    mmu.write_byte(0x8000, 0x76);

    let mut cpu = Cpu::new(mmu);
    cpu.pc = 0x8000;

    // Execute one step: should see the HALT instruction.
    cpu.step();

    // After HALT: halted flag set, PC advanced by 1.
    assert!(cpu.halted, "CPU should be halted after executing HALT");
    assert_eq!(cpu.pc, 0x8001, "PC must point past the HALT opcode");
}

#[test]
fn test_step_halt_stays_halted_without_interrupt() {
    // If halted and no pending interrupt, step() must do nothing.
    let mmu = Mmu::new(&Vec::new());
    let mut cpu = Cpu::new(mmu);

    cpu.halted = true;
    cpu.pc = 0x123;
    cpu.ime = false; // IME does not matter when no interrupt is pending
    // IF & IE stays 0.
    cpu.step();
    assert!(cpu.halted, "Still halted if no interrupt pending");
    assert_eq!(cpu.pc, 0x123, "PC must not change when halted and idle");
}

#[test]
fn test_step_halt_wakes_without_servicing_when_ime_false() {
    // If halted and an interrupt is pending but IME is off, the CPU should
    // wake (halted goes false) but not service the interrupt.
    let mut mmu = Mmu::new(&Vec::new());
    // Make a pending interrupt: the timer bit in IF and IE.
    mmu.write_byte(0xFF0F, Interrupt::Timer.mask());
    mmu.write_byte(0xFFFF, Interrupt::Timer.mask());
    // PC points into the empty ROM image, which reads 0x00 (NOP).
    let mut cpu = Cpu::new(mmu);
    cpu.pc = 0x300;
    cpu.registers.set_sp(0xFFFE);
    cpu.halted = true;
    cpu.ime = false; // master enable off

    cpu.step();

    // Halt clears, but with IME off and a pending interrupt the HALT bug
    // fires: the byte at 0x300 repeats, so PC stays at 0x300.
    assert!(!cpu.halted, "CPU must wake up when interrupt pending");
    assert_eq!(cpu.pc, 0x300, "PC should not advance thanks to the halt bug");
    // And IF should remain unchanged, since IME off means no service.
    assert_ne!(
        cpu.bus.read_byte(0xFF0F) & Interrupt::Timer.mask(),
        0,
        "IF should still contain the pending bit when IME is false"
    );
}

#[test]
fn test_step_halt_wake_and_service_when_ime_true() {
    // HALT wake-up plus interrupt dispatch in one step.
    let mut mmu = Mmu::new(&Vec::new());
    mmu.write_byte(0xFF0F, Interrupt::Timer.mask());
    mmu.write_byte(0xFFFF, Interrupt::Timer.mask());
    let mut cpu = Cpu::new(mmu);

    cpu.pc = 0x400;
    cpu.registers.set_sp(0xFFFE);
    cpu.halted = true;
    cpu.ime = true;

    cpu.step();

    // Should have pushed the return address 0x400, jumped to 0x50, and
    // cleared both halted and IME.
    assert_eq!(cpu.registers.get_sp(), 0xFFFC);
    assert_eq!(cpu.bus.read_byte(0xFFFC), 0x00, "low byte of 0x0400");
    assert_eq!(cpu.bus.read_byte(0xFFFD), 0x04, "high byte of 0x0400");
    assert_eq!(cpu.pc, Interrupt::Timer.vector());
    assert!(!cpu.ime, "IME must be cleared after servicing");
    assert_eq!(
        cpu.bus.read_byte(0xFF0F) & Interrupt::Timer.mask(),
        0,
        "IF Timer bit must be cleared"
    );
}

#[test]
fn test_halt_bug_repeats_next_byte() {
    // 1) Lay out a tiny program in WRAM (0xC000..):
    //      0xC000: 0x76       ; HALT
    //      0xC001: 0x04       ; INC B
    let mut mmu = Mmu::new(&Vec::new());
    mmu.write_byte(0xC000, 0x76);
    mmu.write_byte(0xC001, 0x04);

    // 3) Trigger the halt bug: IME off, and IF & IE overlapping.
    mmu.write_byte(0xFFFF, Interrupt::Timer.mask()); // IE
    mmu.write_byte(0xFF0F, Interrupt::Timer.mask()); // IF

    // 2) Create the CPU and point it at the program.
    let mut cpu = Cpu::new(mmu);
    cpu.pc = 0xC000;
    cpu.registers.set_r8_value(R8::B, 0);
    cpu.ime = false;

    // 4) Step 1: execute the HALT itself (sets halted, moves PC to 0xC001).
    cpu.step();
    assert!(cpu.halted, "after HALT, CPU should be halted");
    assert_eq!(cpu.pc, 0xC001, "PC must advance past HALT");

    // 5) Step 2: wake plus bug; the INC B at 0xC001 executes.
    cpu.step();
    // B went from 0 to 1.
    assert_eq!(cpu.registers.get_r8_value(R8::B), 1);

    // 6) Step 3: no more halt state; the same INC B executes again.
    cpu.step();
    // B is now 2, confirming the repeat of that byte.
    assert_eq!(cpu.registers.get_r8_value(R8::B), 2);
}
