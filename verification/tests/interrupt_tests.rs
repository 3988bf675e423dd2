use gbmu::mmu::interrupt::{Interrupt, InterruptController};

#[test]
fn test_vector_addresses() {
    assert_eq!(Interrupt::VBlank.vector(), 0x40);
    assert_eq!(Interrupt::LcdStat.vector(), 0x48);
    assert_eq!(Interrupt::Timer.vector(), 0x50);
    assert_eq!(Interrupt::Serial.vector(), 0x58);
    assert_eq!(Interrupt::Joypad.vector(), 0x60);
}

#[test]
fn test_read_write_interrupt_enable() {
    let mut ic = InterruptController::new();
    assert_eq!(ic.read_interrupt_enable(), 0);
    ic.write_interrupt_enable(0b1111_1111);
    assert_eq!(ic.read_interrupt_enable(), 0b0001_1111);
    ic.write_interrupt_enable(0b0000_0101);
    assert_eq!(ic.read_interrupt_enable(), 0b0000_0101);
}

#[test]
fn test_read_write_interrupt_flag() {
    let mut ic = InterruptController::new();
    assert_eq!(ic.read_interrupt_flag(), 0b1110_0000);
    ic.write_interrupt_flag(0b1010_1010);
    assert_eq!(ic.read_interrupt_flag(), 0b1110_1010);
    ic.write_interrupt_flag(0);
    assert_eq!(ic.read_interrupt_flag(), 0b1110_0000);
}

#[test]
fn test_request_and_clear_request() {
    let mut ic = InterruptController::new();
    assert_eq!(ic.read_interrupt_flag() & 0b0001_1111, 0);
    ic.request(Interrupt::Timer);
    ic.request(Interrupt::Serial);
    assert_eq!(
        ic.read_interrupt_flag() & 0b0001_1111,
        Interrupt::Timer.mask() | Interrupt::Serial.mask()
    );
    ic.clear_request(Interrupt::Timer);
    assert_eq!(ic.read_interrupt_flag() & 0b0001_1111, Interrupt::Serial.mask());
    ic.clear_request(Interrupt::Serial);
    assert_eq!(ic.read_interrupt_flag() & 0b0001_1111, 0);
}

#[test]
fn test_next_request_priority_and_masking() {
    let mut ic = InterruptController::new();
    ic.write_interrupt_enable(
        Interrupt::VBlank.mask() | Interrupt::Timer.mask() | Interrupt::Joypad.mask(),
    );
    for &interrupt in &[
        Interrupt::VBlank,
        Interrupt::LcdStat,
        Interrupt::Timer,
        Interrupt::Serial,
        Interrupt::Joypad,
    ] {
        ic.request(interrupt);
    }
    assert_eq!(ic.next_request(), Some(Interrupt::VBlank));
    ic.clear_request(Interrupt::VBlank);
    assert_eq!(ic.next_request(), Some(Interrupt::Timer));
    ic.clear_request(Interrupt::Timer);
    assert_eq!(ic.next_request(), Some(Interrupt::Joypad));
    ic.clear_request(Interrupt::Joypad);
    assert_eq!(ic.next_request(), None);
}
