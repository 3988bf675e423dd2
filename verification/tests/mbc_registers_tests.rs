use gbmu::mmu::Mmu;

#[test]
fn rom_range_writes_never_touch_the_image() {
    let mut rom = vec![0u8; 2 * 0x4000];
    rom[0x0000] = 0x11;
    rom[0x1234] = 0x22;
    rom[0x4000] = 0x33;
    let mut mmu = Mmu::new(&rom);

    // Enabling cartridge RAM (low nibble 0xA) is a register write; the ROM
    // byte underneath stays what the image says.
    mmu.write_byte(0x0000, 0x0A);
    assert_eq!(mmu.read_byte(0x0000), 0x11);

    // Any other ROM-range store is discarded too.
    mmu.write_byte(0x1234, 0x99);
    assert_eq!(mmu.read_byte(0x1234), 0x22);
    mmu.write_byte(0x4000, 0x99);
    assert_eq!(mmu.read_byte(0x4000), 0x33);
}

#[test]
fn mode_one_maps_the_bank2_bank_at_the_low_range() {
    // 64 banks (1 MiB), each marked by its first byte.
    let mut rom = vec![0u8; 64 * 0x4000];
    for b in 0..64 {
        rom[b * 0x4000] = b as u8;
    }
    let mut mmu = Mmu::new(&rom);

    // In mode 0 the low range is bank 0.
    assert_eq!(mmu.read_byte(0x0000), 0);

    // BANK2 = 1 and MODE = 1: the low range maps bank 32.
    mmu.write_byte(0x4000, 0x01); // BANK2
    mmu.write_byte(0x6000, 0x01); // MODE
    assert_eq!(mmu.read_byte(0x0000), 32);

    // The switchable range joins BANK2 and BANK1: bank 32 | 5 = 37.
    mmu.write_byte(0x2000, 0x05); // BANK1
    assert_eq!(mmu.read_byte(0x4000), 37);

    // Back in mode 0 the low range is bank 0 again.
    mmu.write_byte(0x6000, 0x00);
    assert_eq!(mmu.read_byte(0x0000), 0);
}
