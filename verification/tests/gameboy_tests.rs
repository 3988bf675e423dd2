use gbmu::gameboy::GameBoy;

#[test]
fn run_frame_returns_a_full_framebuffer() {
    // An empty cartridge: the CPU spins on NOPs while the PPU paints the
    // screen white (color index 0) for a whole frame.
    let mut gb = GameBoy::new(Vec::new());
    let frame = gb.run_frame();

    assert_eq!(frame.len(), 160 * 144 * 3);
    assert!(frame.iter().all(|&b| b == 255));
    // The CPU made progress through the NOPs at the reset vector.
    assert_ne!(gb.cpu.pc, 0x0100);
}

#[test]
fn render_all_tiles_paints_from_vram() {
    let mut gb = GameBoy::new(Vec::new());
    // Tile 0 at 0x8000: first row's low plane all ones -> color index 1.
    gb.cpu.bus.write_byte(0x8000, 0xFF);

    let frame = gb.ppu.render_all_tiles(&gb.cpu.bus);
    assert_eq!(frame.len(), 160 * 144 * 3);
    // The top-left pixel comes from that row: light gray.
    assert_eq!(frame[0], 192);
    // A pixel of a tile row that stayed zero is white.
    assert_eq!(frame[(8 * 160) * 3], 255);
}
