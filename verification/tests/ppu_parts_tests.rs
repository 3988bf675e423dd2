use gbmu::memory::Memory;
use gbmu::mmu::rom_banks::RomBanks;
use gbmu::ppu::lcd_control::LcdControl;
use gbmu::ppu::pixel::Pixel;
use gbmu::ppu::pixel_fifo::PixelFifo;
use gbmu::ppu::colors_palette::Color;

#[test]
fn lcd_control_decodes_every_bit() {
    let mut ctl = LcdControl::default();
    ctl.update_from_byte(0b1001_0001);
    assert!(ctl.is_ppu_enabled());
    assert!(!ctl.is_window_enabled());
    assert!(ctl.is_bg_window_enabled());
    assert_eq!(ctl.bg_window_tile_data_area(), 0x8000);
    assert_eq!(ctl.bg_tile_map_area(), 0x9800);

    ctl.update_from_byte(0b0100_1100);
    assert_eq!(ctl.window_tile_map_area(), 0x9C00);
    assert_eq!(ctl.bg_window_tile_data_area(), 0x8800);
    assert_eq!(ctl.bg_tile_map_area(), 0x9C00);
    assert!(ctl.is_obj_size_8x16());
    assert!(!ctl.is_obj_enabled());

    ctl.select_bg_tile_map(false);
    assert_eq!(ctl.bg_tile_map_area(), 0x9800);
    ctl.enable_obj(true);
    assert!(ctl.is_obj_enabled());
}

#[test]
fn pixel_fifo_is_first_in_first_out() {
    let mut fifo = PixelFifo::new();
    assert!(fifo.is_empty());
    fifo.push(Pixel::new(Color::White, 0, 0, 0));
    fifo.push(Pixel::new(Color::Black, 1, 2, 3));
    assert_eq!(fifo.len(), 2);
    let first = fifo.pop().unwrap();
    assert_eq!(first.get_color(), Color::White);
    let second = fifo.pop().unwrap();
    assert_eq!(second.get_color(), Color::Black);
    assert_eq!(second.get_palette(), 1);
    assert_eq!(second.get_sprite_priority(), 2);
    assert_eq!(second.get_background_priority(), 3);
    assert!(fifo.pop().is_none());
    fifo.push(Pixel::default());
    fifo.clear();
    assert!(fifo.is_empty());
}

#[test]
fn rom_banks_read_both_halves() {
    let mut rom = vec![0u8; 2 * 0x4000];
    rom[0] = 0xAA;
    rom[0x4000] = 0xBB;
    let banks = RomBanks::new(&rom);
    assert_eq!(banks.read(0x0000), 0xAA);
    assert_eq!(banks.read(0x4000), 0xBB);
    let mut banks = banks;
    banks.write(0x0000, 0x99); // ROM ignores writes here
    assert_eq!(banks.read(0x0000), 0xAA);
}

#[test]
fn bankless_memory_keeps_rom_range_read_only() {
    let mut mem = Memory::new();
    mem.write_byte(0x4000, 0x55);
    assert_eq!(mem.read_byte(0x4000), 0x00);
    mem.write_byte(0xA000, 0x66); // external RAM region is plain here
    assert_eq!(mem.read_byte(0xA000), 0x66);
}
