use gbmu::gameboy::GameBoy;
use gbmu::mmu::Mmu;
use gbmu::ppu::lcd_status::PpuMode;
use gbmu::ppu::Ppu;

#[test]
fn dot_clock_walks_the_mode_cycle_of_a_scanline() {
    let mut ppu = Ppu::new();
    let mut bus = Mmu::new(&Vec::new());

    // 40 dots in: OAM search, and STAT's low bits say so on the bus.
    ppu.advance_dots(&mut bus, 40);
    assert_eq!(ppu.lcd_status.get_ppu_mode(), PpuMode::OamSearch);
    assert_eq!(bus.read_byte(0xFF41) & 0x03, 2);

    // Past 80 dots: pixel transfer.
    ppu.advance_dots(&mut bus, 60);
    assert_eq!(ppu.lcd_status.get_ppu_mode(), PpuMode::PixelTransfer);
    assert_eq!(bus.read_byte(0xFF41) & 0x03, 3);

    // Past 252 dots: HBlank for the rest of the 456.
    ppu.advance_dots(&mut bus, 200);
    assert_eq!(ppu.lcd_status.get_ppu_mode(), PpuMode::HBlank);
    assert_eq!(bus.read_byte(0xFF41) & 0x03, 0);

    // The next scanline starts the cycle over.
    ppu.advance_dots(&mut bus, 200);
    assert_eq!(ppu.lcd_status.get_ppu_mode(), PpuMode::OamSearch);
}

#[test]
fn entering_vblank_requests_the_vblank_interrupt() {
    let mut ppu = Ppu::new();
    let mut bus = Mmu::new(&Vec::new());

    // Land just inside scanline 144.
    ppu.advance_dots(&mut bus, 144 * 456);
    assert_eq!(ppu.lcd_status.get_ppu_mode(), PpuMode::VBlank);
    assert_eq!(bus.read_byte(0xFF41) & 0x03, 1);
    assert_ne!(bus.read_byte(0xFF0F) & 0x01, 0, "VBlank must be requested");
}

#[test]
fn stat_sources_request_lcd_stat_when_selected() {
    // The LY==LYC source: LYC = 1, select on; crossing into scanline 1
    // raises LCD-STAT.
    let mut ppu = Ppu::new();
    let mut bus = Mmu::new(&Vec::new());
    ppu.lyc = 1;
    ppu.lcd_status.lyc_int_select = true;

    ppu.advance_dots(&mut bus, 456);
    assert!(ppu.lcd_status.lyc_equals_ly);
    assert_ne!(bus.read_byte(0xFF41) & 0x04, 0);
    assert_ne!(bus.read_byte(0xFF0F) & 0x02, 0, "LCD-STAT must be requested");

    // Without the select bit, the same crossing requests nothing.
    let mut ppu = Ppu::new();
    let mut bus = Mmu::new(&Vec::new());
    ppu.lyc = 1;
    ppu.advance_dots(&mut bus, 456);
    assert!(ppu.lcd_status.lyc_equals_ly);
    assert_eq!(bus.read_byte(0xFF0F) & 0x02, 0);
}

#[test]
fn a_frame_of_ticks_reaches_vblank() {
    // Over one run_frame the machine's dot clock passes through VBlank, so
    // the request bit is up afterwards.
    let mut gb = GameBoy::new(Vec::new());
    gb.run_frame();
    assert_ne!(gb.cpu.bus.read_byte(0xFF0F) & 0x01, 0);
}
