use gbmu::mmu::{MemoryRegion, Mmu};

#[test]
fn mmu_routes_reads_and_writes() {
    let rom = vec![0x12, 0x34, 0x56, 0x78];
    let mut mmu = Mmu::new(&rom);

    // Reading from the ROM region gives the first bank's data.
    assert_eq!(mmu.read_byte(0x0000), 0x12);
    assert_eq!(mmu.read_byte(0x0001), 0x34);

    // Write to the WRAM region and read back.
    mmu.write_byte(0xC000, 0xAB);
    assert_eq!(mmu.read_byte(0xC000), 0xAB);

    // FF44 is hardcoded.
    assert_eq!(mmu.read_byte(0xFF44), 0x90);
}

#[test]
fn memory_region_from_addr() {
    assert_eq!(MemoryRegion::from(0x0000), MemoryRegion::Mbc);
    assert_eq!(MemoryRegion::from(0x8000), MemoryRegion::Vram);
    assert_eq!(MemoryRegion::from(0xA123), MemoryRegion::ERam);
    assert_eq!(MemoryRegion::from(0xC123), MemoryRegion::Wram);
    assert_eq!(MemoryRegion::from(0xE123), MemoryRegion::Mram);
    assert_eq!(MemoryRegion::from(0xFE50), MemoryRegion::Oam);
    assert_eq!(MemoryRegion::from(0xFEA0), MemoryRegion::Unusable);
    assert_eq!(MemoryRegion::from(0xFF0F), MemoryRegion::If);
    assert_eq!(MemoryRegion::from(0xFF10), MemoryRegion::Io);
    assert_eq!(MemoryRegion::from(0xFF80), MemoryRegion::HRam);
    assert_eq!(MemoryRegion::from(0xFFFF), MemoryRegion::Ie);
}

// MRAM / echo RAM
#[test]
fn echo_ram_mirror() {
    let mut mmu = Mmu::new(&Vec::new());

    // Write to work RAM (0xC000) and read from echo RAM (0xE000).
    mmu.write_byte(0xC000, 0xAA);
    assert_eq!(mmu.read_byte(0xE000), 0xAA);

    // Write to echo RAM and read from work RAM.
    mmu.write_byte(0xE010, 0xBB);
    assert_eq!(mmu.read_byte(0xC010), 0xBB);
}

// UNUSABLE REGION
#[test]
fn unusable_region_behavior() {
    let mut mmu = Mmu::new(&Vec::new());

    // The unusable region reads back as 0xFF.
    let base: u16 = 0xFEA0;
    assert_eq!(mmu.read_byte(base), 0xFF);
    assert_eq!(mmu.read_byte(base + 0x1F), 0xFF);

    // Writes to the unusable region are ignored (reads stay 0xFF).
    mmu.write_byte(base, 0x00);
    mmu.write_byte(base + 0x1F, 0x12);
    assert_eq!(mmu.read_byte(base), 0xFF);
    assert_eq!(mmu.read_byte(base + 0x1F), 0xFF);
}
