use gbmu::memory::MemoryBus;

fn make_empty_16kb_rom() -> Vec<u8> {
    vec![0; 0x4000]
}

#[test]
fn rom_bank0_and_bank1_reading() {
    // Build a fake ROM where:
    // - bank 0 is all 0xAA
    // - bank 1 is all 0xBB
    // (each bank is 0x4000 bytes long)
    let mut fake_rom = vec![0xAA; 0x4000];

    fake_rom.extend(vec![0xBB; 0x4000]);

    // Initialise the bus with that ROM.
    let bus = MemoryBus::new(fake_rom);
    let bank0: u8 = 0xAA;
    let bank1: u8 = 0xBB;

    assert_eq!(bus.read_byte(0x0000), bank0);
    assert_eq!(bus.read_byte(0x1234), bank0);
    assert_eq!(bus.read_byte(0x3FFF), bank0);

    assert_eq!(bus.read_byte(0x4000), bank1);
    assert_eq!(bus.read_byte(0x4ABC), bank1);
    assert_eq!(bus.read_byte(0x7FFF), bank1);
}

#[test]
fn bus_basic_ram_read_write() {
    let mut mem = MemoryBus::new(make_empty_16kb_rom());
    mem.write_byte(0xC000, 0x42);
    assert_eq!(mem.read_byte(0xC000), 0x42);
}

#[test]
fn bus_vram_read_write() {
    let mut mem = MemoryBus::new(make_empty_16kb_rom());
    mem.write_byte(0x8100, 0x42);
    assert_eq!(mem.read_byte(0x8100), 0x42);
}

#[test]
fn bus_io_registers_read_write() {
    let mut mem = MemoryBus::new(make_empty_16kb_rom());
    let io1 = 0xFF00;
    let io2 = 0xFF7F;
    mem.write_byte(io1, 0x11);
    mem.write_byte(io2, 0x22);
    assert_eq!(mem.read_byte(io1), 0x11);
    assert_eq!(mem.read_byte(io2), 0x22);
}

#[test]
fn bus_rom_is_read_only() {
    let mut mem = MemoryBus::new(make_empty_16kb_rom());
    let rom_addr = 0x2000;
    mem.write_byte(rom_addr, 0x99);
    assert_eq!(mem.read_byte(rom_addr), 0x00);
}

#[test]
fn bus_echo_ram_mirrors_wram() {
    let mut mem = MemoryBus::new(make_empty_16kb_rom());
    let echo = 0xE456;
    let real = 0xC456;
    mem.write_byte(echo, 0xCD);
    assert_eq!(mem.read_byte(real), 0xCD);
}

#[test]
fn bus_echo_ram_mirrors_backwards() {
    let mut mem = MemoryBus::new(make_empty_16kb_rom());
    let echo = 0xE567;
    let real = 0xC567;
    mem.write_byte(real, 0xCF);
    assert_eq!(mem.read_byte(echo), 0xCF);
}

#[test]
fn bus_unusable_region_reads_ff() {
    let mem = MemoryBus::new(make_empty_16kb_rom());
    // The underlying data is zero, but prohibited reads return 0xFF.
    assert_eq!(mem.read_byte(0xFEA0), 0xFF);
    assert_eq!(mem.read_byte(0xFEFF), 0xFF);
}

#[test]
fn bus_unusable_region_write_is_ignored() {
    let mut mem = MemoryBus::new(make_empty_16kb_rom());
    // Write to the unusable range; the underlying data stays at 0x00.
    mem.write_byte(0xFEB0, 0x77);
    // Looking past the unusable barrier:
    assert_eq!(mem.data[0xFEB0], 0x00);
}
