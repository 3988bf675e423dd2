//! The pixel-processing unit: per-scanline background/window fetch through
//! the tile maps, the pixel FIFO, and emission of RGB rows into a 160x144
//! framebuffer.

pub mod colors_palette;
pub mod lcd_control;
pub mod lcd_status;
pub mod pixel;
pub mod pixel_fifo;

use crate::cpu::utils::{i8_as_u16, spec_i8_as_u16};
use crate::mmu::interrupt::Interrupt;
use crate::mmu::{mmu_read, mmu_write, Mmu, MmuView};
use crate::ppu::colors_palette::Color;
use crate::ppu::lcd_control::LcdControl;
use crate::ppu::lcd_status::{
    spec_mode_for_dot, LcdStatus, PpuMode, DOTS_PER_LINE, FRAME_DOTS, VISIBLE_LINES,
};
use crate::ppu::pixel::Pixel;
use crate::ppu::pixel_fifo::PixelFifo;
use vstd::prelude::*;

verus! {

/// Screen width in pixels.
pub const WIN_SIZE_X: usize = 160;

/// Screen height in pixels.
pub const WIN_SIZE_Y: usize = 144;

/// VBlank length in scanlines.
pub const VBLANK_SIZE: usize = 10;

pub const LY_ADDR: u16 = 0xFF44;

pub const LYC_ADDR: u16 = 0xFF45;

pub const STAT_ADDR: u16 = 0xFF41;

pub const SCX_ADDR: u16 = 0xFF43;

pub const SCY_ADDR: u16 = 0xFF42;

pub const WY_ADDR: u16 = 0xFF4A;

pub const WX_ADDR: u16 = 0xFF4B;

pub const LCD_CONTROL_ADDR: u16 = 0xFF40;

/// The 2-bit color index of the pixel at `(x % 8, y % 8)` of a 16-byte tile:
/// two bit planes per row, most significant bit leftmost.
pub open spec fn spec_pixel_color(tile: Seq<u8>, x: int, y: int) -> Color {
    let pixel_x = x % 8;
    let pixel_y = y % 8;
    let lsb_byte = tile[pixel_y * 2];
    let msb_byte = tile[pixel_y * 2 + 1];
    let bit_index = (7 - pixel_x) as u8;
    let lsb_bit = (lsb_byte >> bit_index) & 1;
    let msb_bit = (msb_byte >> bit_index) & 1;
    Color::spec_from_index((msb_bit << 1) | lsb_bit)
}

/// The 16 tile bytes starting at `addr`.
pub open spec fn spec_tile_seq(bus: MmuView, addr: u16) -> Seq<u8> {
    Seq::new(16, |i: int| mmu_read(bus, addr.wrapping_add(i as u16)))
}

/// The mathematical model of the PPU: the decoded control and status
/// registers, the latched scroll/window/compare registers, the render
/// cursor and the queued pixels.
#[verifier::ext_equal]
pub ghost struct PpuView {
    pub lcd_control: LcdControl,
    pub lcd_status: LcdStatus,
    pub scx: u8,
    pub scy: u8,
    pub wy: u8,
    pub wx: u8,
    pub ly: u8,
    pub lyc: u8,
    pub x: usize,
    pub dot: u32,
    pub fifo: Seq<Pixel>,
}

/// The whole PPU but the memory bus, which the emulator owns.
pub struct Ppu {
    pub lcd_control: LcdControl,
    pub lcd_status: LcdStatus,
    pub scx: u8,
    pub scy: u8,
    pub wy: u8,
    pub wx: u8,
    pub ly: u8,
    pub lyc: u8,
    pub x: usize,
    /// The dot clock: the position inside the 70,224-dot frame that the
    /// mode machine follows.
    pub dot: u32,
    pub bg_fifo: PixelFifo,
}

impl View for Ppu {
    type V = PpuView;

    open spec fn view(&self) -> PpuView {
        PpuView {
            lcd_control: self.lcd_control,
            lcd_status: self.lcd_status,
            scx: self.scx,
            scy: self.scy,
            wy: self.wy,
            wx: self.wx,
            ly: self.ly,
            lyc: self.lyc,
            x: self.x,
            dot: self.dot,
            fifo: self.bg_fifo@,
        }
    }
}

/// The initial PPU state: everything cleared, the queue empty.
pub open spec fn spec_ppu_init() -> PpuView {
    PpuView {
        lcd_control: LcdControl::spec_default(),
        lcd_status: LcdStatus {
            lyc_int_select: false,
            mode_2_int_select: false,
            mode_1_int_select: false,
            mode_0_int_select: false,
            lyc_equals_ly: false,
            ppu_mode: crate::ppu::lcd_status::PpuMode::HBlank,
        },
        scx: 0,
        scy: 0,
        wy: 0,
        wx: 0,
        ly: 0,
        lyc: 0,
        x: 0,
        dot: 0,
        fifo: Seq::empty(),
    }
}

/// The tile-data address of the tile named at `(tile_x, tile_y)` of the
/// selected background map: unsigned indices off 0x8000, or signed indices
/// off 0x9000.
pub open spec fn spec_tile_address(p: PpuView, bus: MmuView, tile_y: int, tile_x: int) -> u16 {
    let tilemap_base = p.lcd_control.spec_bg_tile_map_area();
    let offset = (tile_y * 32 + tile_x) as u16;
    let tile_number = mmu_read(bus, (tilemap_base + offset) as u16);
    if p.lcd_control.bg_window_tile_data_area {
        (0x8000 + tile_number * 16) as u16
    } else {
        0x9000u16.wrapping_add(spec_i8_as_u16(tile_number).wrapping_mul(16))
    }
}

/// The background or window shade of screen pixel `(screen_x, screen_y)`.
pub open spec fn spec_fetch_color(p: PpuView, bus: MmuView, screen_x: int, screen_y: int) -> Color {
    let use_window = p.lcd_control.window_enable && screen_y >= p.wy && screen_x + 7 >= p.wx;
    let bg_x = if use_window {
        (screen_x + 7 - p.wx) % 256
    } else {
        (screen_x + p.scx) % 256
    };
    let bg_y = if use_window {
        (screen_y - p.wy) % 256
    } else {
        (screen_y + p.scy) % 256
    };
    let tile_address = spec_tile_address(p, bus, bg_y / 8, bg_x / 8);
    spec_pixel_color(spec_tile_seq(bus, tile_address), bg_x % 8, bg_y % 8)
}

/// The eight pixels the fetcher yields for the current position.
pub open spec fn spec_fetched_pixels(p: PpuView, bus: MmuView) -> Seq<Pixel> {
    Seq::new(
        8,
        |k: int|
            Pixel {
                color: spec_fetch_color(p, bus, p.x + k, p.ly as int),
                palette: 0,
                sprite_priority: 0,
                background_priority: 0,
            },
    )
}

/// The shade of screen pixel `(x, y)` when the screen is painted straight
/// from the first tiles of video RAM, twenty tiles to a row.
pub open spec fn spec_tiles_pixel(bus: MmuView, x: int, y: int) -> Color {
    let tile_index = (y / 8) * 20 + x / 8;
    let base_address = (0x8000 + tile_index * 16) as u16;
    spec_pixel_color(spec_tile_seq(bus, base_address), x, y)
}

/// A framebuffer with one pixel's three bytes replaced.
pub open spec fn spec_write_pixel(frame: Seq<u8>, offset: int, color: Color) -> Seq<u8> {
    let rgb = color.spec_rgb();
    frame.update(offset, rgb.0).update(offset + 1, rgb.1).update(offset + 2, rgb.2)
}

/// A framebuffer with the first `n` pixels of `row` written from `base`.
pub open spec fn spec_write_row(frame: Seq<u8>, base: int, row: Seq<Pixel>, n: int) -> Seq<u8>
    decreases n,
{
    if n <= 0 {
        frame
    } else {
        spec_write_pixel(spec_write_row(frame, base, row, n - 1), base + 3 * (n - 1), row[n
            - 1].color)
    }
}

/// The PPU after latching the scroll, window, compare and control registers
/// from the bus.
pub open spec fn spec_after_update_registers(p: PpuView, bus: MmuView) -> PpuView {
    PpuView {
        lyc: mmu_read(bus, LYC_ADDR),
        scy: mmu_read(bus, SCY_ADDR),
        scx: mmu_read(bus, SCX_ADDR),
        wy: mmu_read(bus, WY_ADDR),
        wx: mmu_read(bus, WX_ADDR),
        lcd_control: LcdControl::spec_from_byte(mmu_read(bus, LCD_CONTROL_ADDR)),
        ..p
    }
}

/// The PPU and bus after the dot clock moves forward by `dots`: the STAT
/// mode bits and the LY==LYC flag follow the timetable of the frame, the
/// updated STAT byte lands at its bus address, entering VBlank requests the
/// VBlank interrupt, and a mode entry or an LY==LYC rise whose STAT select
/// bit is on requests the LCD-STAT interrupt.
pub open spec fn spec_after_advance_dots(p: PpuView, bus: MmuView, dots: u32) -> (
    PpuView,
    MmuView,
) {
    let new_dot = (((p.dot + dots) % (FRAME_DOTS as int)) as u32);
    let line = ((new_dot / DOTS_PER_LINE) as u8);
    let mode = spec_mode_for_dot(new_dot);
    let lyc_equals = line == p.lyc;
    let status = LcdStatus { ppu_mode: mode, lyc_equals_ly: lyc_equals, ..p.lcd_status };
    let p2 = PpuView { dot: new_dot, lcd_status: status, ..p };
    let bus1 = mmu_write(bus, STAT_ADDR, status.spec_stat_byte());
    let mode_changed = mode != p.lcd_status.ppu_mode;
    let entered_vblank = mode == PpuMode::VBlank && mode_changed;
    let mode_irq = mode_changed && ((mode == PpuMode::OamSearch && status.mode_2_int_select) || (
    mode == PpuMode::VBlank && status.mode_1_int_select) || (mode == PpuMode::HBlank
        && status.mode_0_int_select));
    let lyc_irq = lyc_equals && !p.lcd_status.lyc_equals_ly && status.lyc_int_select;
    let bus2 = if entered_vblank {
        MmuView { iflag: bus1.iflag | 0x01, ..bus1 }
    } else {
        bus1
    };
    let bus3 = if mode_irq || lyc_irq {
        MmuView { iflag: bus2.iflag | 0x02, ..bus2 }
    } else {
        bus2
    };
    (p2, bus3)
}

/// The PPU and framebuffer after rendering eight pixels at the cursor: the
/// fetched pixels queue behind the FIFO, the front eight leave it into the
/// frame, and the cursor advances with wraparound at the screen edges.
pub open spec fn spec_after_render_frame(p: PpuView, bus: MmuView, frame: Seq<u8>) -> (
    PpuView,
    Seq<u8>,
) {
    let queued = p.fifo + spec_fetched_pixels(p, bus);
    let base = (p.ly as int * WIN_SIZE_X + p.x as int) * 3;
    let frame2 = spec_write_row(frame, base, queued, 8);
    let x2: usize = if p.x + 8 >= WIN_SIZE_X {
        0
    } else {
        (p.x + 8) as usize
    };
    let ly2: u8 = if p.x + 8 >= WIN_SIZE_X {
        if p.ly + 1 >= WIN_SIZE_Y {
            0
        } else {
            (p.ly + 1) as u8
        }
    } else {
        p.ly
    };
    (PpuView { x: x2, ly: ly2, fifo: queued.skip(8), ..p }, frame2)
}

impl Ppu {
    /// The renderer's position invariant: the cursor sits at a tile-aligned
    /// column of a visible scanline.
    pub open spec fn wf(self) -> bool {
        self.x < WIN_SIZE_X && self.x % 8 == 0 && self.ly < WIN_SIZE_Y && self.dot < FRAME_DOTS
    }

    pub fn new() -> (r: Ppu)
        ensures
            r.wf(),
            r@ == spec_ppu_init(),
            r.bg_fifo.y == 0 && r.bg_fifo.state == 0,
    {
        let r = Ppu {
            lcd_control: LcdControl::default(),
            lcd_status: LcdStatus::new(),
            scx: 0x00,
            scy: 0x00,
            wy: 0x00,
            wx: 0x00,
            ly: 0x00,
            lyc: 0x00,
            x: 0,
            dot: 0,
            bg_fifo: PixelFifo::default(),
        };
        proof {
            assert(r@ =~= spec_ppu_init());
        }
        r
    }

    /// Read the shade of pixel `(x % 8, y % 8)` out of one tile's 16 bytes.
    pub fn get_pixel_color(&self, tile_data: &Vec<u8>, x: usize, y: usize) -> (r: Color)
        requires
            tile_data.len() == 16,
        returns
            spec_pixel_color(tile_data@, x as int, y as int),
    {
        let pixel_x = x % 8;
        let pixel_y = y % 8;

        let lsb_byte = tile_data[pixel_y * 2];
        let msb_byte = tile_data[pixel_y * 2 + 1];

        let bit_index = (7 - pixel_x) as u8;

        let lsb_bit = (lsb_byte >> bit_index) & 1;
        let msb_bit = (msb_byte >> bit_index) & 1;

        let color_index = (msb_bit << 1u8) | lsb_bit;

        proof {
            let m = msb_bit;
            let l = lsb_bit;
            assert(m <= 1 && l <= 1 ==> ((m << 1) | l) < 4) by (bit_vector);
            broadcast use crate::bits::lemma_u8_and_bound;

        }
        Color::from_index(color_index)
    }

    /// The 16 bytes of the tile at `tile_address`.
    pub fn read_tile_data(&self, bus: &Mmu, tile_address: u16) -> (r: Vec<u8>)
        requires
            bus.wf(),
        ensures
            r@ == spec_tile_seq(bus@, tile_address),
    {
        let mut tile_data: Vec<u8> = Vec::new();
        let mut i: usize = 0;
        while i < 16
            invariant
                bus.wf(),
                i == tile_data.len(),
                i <= 16,
                forall|j: int|
                    0 <= j < i ==> tile_data[j] == mmu_read(
                        bus@,
                        tile_address.wrapping_add(j as u16),
                    ),
            decreases 16 - i,
        {
            tile_data.push(bus.read_byte(tile_address.wrapping_add(i as u16)));
            i += 1;
        }
        proof {
            assert(tile_data@ =~= spec_tile_seq(bus@, tile_address));
        }
        tile_data
    }

    /// Write one pixel's RGB triple at `offset`.
    fn set_pixel_color(&self, frame: &mut Vec<u8>, offset: usize, color: Color)
        requires
            offset + 2 < old(frame).len(),
        ensures
            final(frame).len() == old(frame).len(),
            final(frame)@ == spec_write_pixel(old(frame)@, offset as int, color),
    {
        let color_rgb = color.to_rgb();
        frame.set(offset, color_rgb.0);
        frame.set(offset + 1, color_rgb.1);
        frame.set(offset + 2, color_rgb.2);
    }

    /// Resolve the tile named at `(x, y)` of the background map to its
    /// tile-data address.
    fn get_tile_address(&self, bus: &Mmu, y: usize, x: usize) -> (r: u16)
        requires
            bus.wf(),
            y < 32,
            x < 32,
        returns
            spec_tile_address(self@, bus@, y as int, x as int),
    {
        let tilemap_base: u16 = self.lcd_control.bg_tile_map_area();

        let offset = (y * 32 + x) as u16;
        let tile_number = bus.read_byte(tilemap_base + offset);
        if self.lcd_control.bg_window_tile_data_area {
            0x8000 + (tile_number as u16) * 16
        } else {
            0x9000u16.wrapping_add(i8_as_u16(tile_number).wrapping_mul(16))
        }
    }

    /// Fetch the eight background or window pixels at the current position.
    pub fn fetcher(&self, bus: &Mmu) -> (r: Vec<Pixel>)
        requires
            bus.wf(),
            self.x + 8 <= WIN_SIZE_X,
        ensures
            r@ == spec_fetched_pixels(self@, bus@),
    {
        let mut screen_x = self.x;
        let screen_y = self.ly as usize;
        let mut pixels: Vec<Pixel> = Vec::new();

        let mut k: usize = 0;
        while k < 8
            invariant
                bus.wf(),
                k <= 8,
                screen_x == self.x + k,
                screen_y == self.ly as int,
                k == pixels.len(),
                self.x + 8 <= WIN_SIZE_X,
                forall|j: int| 0 <= j < k ==> pixels[j] == spec_fetched_pixels(self@, bus@)[j],
            decreases 8 - k,
        {
            let use_window = self.lcd_control.is_window_enabled() && (screen_y >= self.wy as usize)
                && (screen_x + 7 >= self.wx as usize);

            let bg_x: usize = if use_window {
                (screen_x + 7 - self.wx as usize) % 256
            } else {
                (screen_x + self.scx as usize) % 256
            };
            let bg_y: usize = if use_window {
                (screen_y - self.wy as usize) % 256
            } else {
                (screen_y + self.scy as usize) % 256
            };

            let tile_x = bg_x / 8;
            let tile_y = bg_y / 8;
            let tile_address = self.get_tile_address(bus, tile_y, tile_x);
            let tile = self.read_tile_data(bus, tile_address);
            let pixel_x = bg_x % 8;
            let pixel_y = bg_y % 8;
            let color = self.get_pixel_color(&tile, pixel_x, pixel_y);
            let pixel = Pixel::new(color, 0, 0, 0);
            pixels.push(pixel);
            screen_x += 1;
            k += 1;
            proof {
                assert(pixels[k - 1] == spec_fetched_pixels(self@, bus@)[k - 1]);
            }
        }
        proof {
            assert(pixels@ =~= spec_fetched_pixels(self@, bus@));
        }
        pixels
    }

    /// Paint the whole screen straight from the first tiles of video RAM,
    /// twenty tiles to a row, ignoring the tile maps.
    #[verifier::rlimit(60)]
    pub fn render_all_tiles(&self, bus: &Mmu) -> (r: Vec<u8>)
        requires
            bus.wf(),
        ensures
            r.len() == WIN_SIZE_X * WIN_SIZE_Y * 3,
            forall|y: int, x: int|
                0 <= y < WIN_SIZE_Y && 0 <= x < WIN_SIZE_X ==> {
                    let off = (y * WIN_SIZE_X + x) * 3;
                    let rgb = (#[trigger] spec_tiles_pixel(bus@, x, y)).spec_rgb();
                    r[off] == rgb.0 && r[off + 1] == rgb.1 && r[off + 2] == rgb.2
                },
    {
        let mut frame: Vec<u8> = Vec::new();
        let mut i: usize = 0;
        while i < WIN_SIZE_X * WIN_SIZE_Y * 3
            invariant
                i == frame.len(),
                i <= WIN_SIZE_X * WIN_SIZE_Y * 3,
            decreases WIN_SIZE_X * WIN_SIZE_Y * 3 - i,
        {
            frame.push(0);
            i += 1;
        }

        let mut y: usize = 0;
        while y < WIN_SIZE_Y
            invariant
                bus.wf(),
                y <= WIN_SIZE_Y,
                frame.len() == WIN_SIZE_X * WIN_SIZE_Y * 3,
                forall|j: int, i2: int|
                    0 <= j < y && 0 <= i2 < WIN_SIZE_X ==> {
                        let off = (j * WIN_SIZE_X + i2) * 3;
                        let rgb = (#[trigger] spec_tiles_pixel(bus@, i2, j)).spec_rgb();
                        frame[off] == rgb.0 && frame[off + 1] == rgb.1 && frame[off + 2] == rgb.2
                    },
            decreases WIN_SIZE_Y - y,
        {
            let mut x: usize = 0;
            while x < WIN_SIZE_X
                invariant
                    bus.wf(),
                    y < WIN_SIZE_Y,
                    x <= WIN_SIZE_X,
                    frame.len() == WIN_SIZE_X * WIN_SIZE_Y * 3,
                    forall|j: int, i2: int|
                        (0 <= j < y && 0 <= i2 < WIN_SIZE_X) || (j == y && 0 <= i2 < x) ==> {
                            let off = (j * WIN_SIZE_X + i2) * 3;
                            let rgb = (#[trigger] spec_tiles_pixel(bus@, i2, j)).spec_rgb();
                            frame[off] == rgb.0 && frame[off + 1] == rgb.1 && frame[off + 2]
                                == rgb.2
                        },
                decreases WIN_SIZE_X - x,
            {
                let tile_index = (y / 8) * 20 + (x / 8);
                let base_address = 0x8000u16 + (tile_index as u16) * 16;
                let tile_data = self.read_tile_data(bus, base_address);
                let color = self.get_pixel_color(&tile_data, x, y);
                let offset = (y * WIN_SIZE_X + x) * 3;
                self.set_pixel_color(&mut frame, offset, color);
                x += 1;
                proof {
                    assert(spec_tiles_pixel(bus@, x - 1, y as int) == color);
                }
            }
            y += 1;
        }
        frame
    }

    /// Render the eight pixels at the cursor into `frame` and advance the
    /// cursor, wrapping at the right edge and the bottom of the screen. The
    /// pixels written come from the front of the FIFO once the fetched ones
    /// are queued behind it.
    #[verifier::rlimit(60)]
    pub fn render_frame(&mut self, bus: &Mmu, frame: &mut Vec<u8>)
        requires
            bus.wf(),
            old(self).wf(),
            old(frame).len() == WIN_SIZE_X * WIN_SIZE_Y * 3,
        ensures
            final(self).wf(),
            final(frame).len() == old(frame).len(),
            final(self)@ == spec_after_render_frame(old(self)@, bus@, old(frame)@).0,
            final(frame)@ == spec_after_render_frame(old(self)@, bus@, old(frame)@).1,
            final(self).bg_fifo.y == old(self).bg_fifo.y,
            final(self).bg_fifo.state == old(self).bg_fifo.state,
    {
        let ghost queued = old(self)@.fifo + spec_fetched_pixels(old(self)@, bus@);
        let ghost base = (old(self).ly as int * WIN_SIZE_X + old(self).x as int) * 3;

        let pixels = self.fetcher(bus);
        let mut k: usize = 0;
        while k < 8
            invariant
                k <= 8,
                pixels.len() == 8,
                pixels@ == spec_fetched_pixels(old(self)@, bus@),
                self.bg_fifo@ == old(self).bg_fifo@ + pixels@.take(k as int),
                self.bg_fifo.y == old(self).bg_fifo.y,
                self.bg_fifo.state == old(self).bg_fifo.state,
                *self == (Ppu { bg_fifo: self.bg_fifo, ..*old(self) }),
            decreases 8 - k,
        {
            self.bg_fifo.push(pixels[k]);
            k += 1;
            proof {
                assert(self.bg_fifo@ =~= old(self).bg_fifo@ + pixels@.take(k as int));
            }
        }
        proof {
            assert(pixels@.take(8) =~= pixels@);
            assert(self.bg_fifo@ == queued);
        }

        let mut i: usize = 0;
        while i < 8
            invariant
                i <= 8,
                bus.wf(),
                old(self).wf(),
                queued.len() >= 8,
                queued == old(self)@.fifo + spec_fetched_pixels(old(self)@, bus@),
                self.bg_fifo@ == queued.skip(i as int),
                self.bg_fifo.y == old(self).bg_fifo.y,
                self.bg_fifo.state == old(self).bg_fifo.state,
                *self == (Ppu { bg_fifo: self.bg_fifo, ..*old(self) }),
                frame.len() == old(frame).len(),
                old(frame).len() == WIN_SIZE_X * WIN_SIZE_Y * 3,
                base == (old(self).ly as int * WIN_SIZE_X + old(self).x as int) * 3,
                frame@ == spec_write_row(old(frame)@, base, queued, i as int),
            decreases 8 - i,
        {
            let popped = self.bg_fifo.pop();
            if let Option::Some(p) = popped {
                let offset = ((self.ly as usize * WIN_SIZE_X) + (self.x + i)) * 3;
                self.set_pixel_color(frame, offset, p.get_color());
            }
            i += 1;
            proof {
                assert(self.bg_fifo@ =~= queued.skip(i as int));
            }
        }

        self.x += 8;
        if self.x >= WIN_SIZE_X {
            self.x = 0;
            self.ly += 1;
            if self.ly >= WIN_SIZE_Y as u8 {
                self.ly = 0;
            }
        }
        proof {
            assert(self@ =~~= spec_after_render_frame(old(self)@, bus@, old(frame)@).0);
        }
    }

    /// Advance the dot clock and drive the mode machine: STAT's mode bits
    /// and LY==LYC flag follow the timetable, the STAT byte is stored at its
    /// bus address, entering VBlank requests the VBlank interrupt, and the
    /// selected STAT sources request the LCD-STAT interrupt as they rise.
    pub fn advance_dots(&mut self, bus: &mut Mmu, dots: u32)
        requires
            old(self).wf(),
            old(bus).wf(),
            dots <= FRAME_DOTS,
        ensures
            final(self).wf(),
            final(bus).wf(),
            final(self)@ == spec_after_advance_dots(old(self)@, old(bus)@, dots).0,
            final(bus)@ == spec_after_advance_dots(old(self)@, old(bus)@, dots).1,
    {
        let new_dot = (self.dot + dots) % FRAME_DOTS;
        let line = (new_dot / DOTS_PER_LINE) as u8;
        let mode = crate::ppu::lcd_status::mode_for_dot(new_dot);
        let lyc_equals = line == self.lyc;

        let old_mode = self.lcd_status.get_ppu_mode();
        let was_lyc_equal = self.lcd_status.lyc_equals_ly;
        self.dot = new_dot;
        self.lcd_status.update_ppu_mode(mode);
        self.lcd_status.set_lyc_equals_ly(lyc_equals);

        bus.write_byte(STAT_ADDR, self.lcd_status.stat_byte());

        let mode_changed = mode != old_mode;
        if mode == PpuMode::VBlank && mode_changed {
            bus.request_interrupt(Interrupt::VBlank);
        }
        let mode_irq = mode_changed && ((mode == PpuMode::OamSearch
            && self.lcd_status.mode_2_int_select) || (mode == PpuMode::VBlank
            && self.lcd_status.mode_1_int_select) || (mode == PpuMode::HBlank
            && self.lcd_status.mode_0_int_select));
        let lyc_irq = lyc_equals && !was_lyc_equal && self.lcd_status.lyc_int_select;
        if mode_irq || lyc_irq {
            bus.request_interrupt(Interrupt::LcdStat);
        }
        proof {
            assert(self@ =~~= spec_after_advance_dots(old(self)@, old(bus)@, dots).0);
            assert(bus@ =~~= spec_after_advance_dots(old(self)@, old(bus)@, dots).1);
        }
    }

    /// Refresh the scroll, window, compare and control registers from their
    /// bus addresses.
    pub fn update_registers(&mut self, bus: &Mmu)
        requires
            bus.wf(),
        ensures
            final(self)@ == spec_after_update_registers(old(self)@, bus@),
            final(self).wf() == old(self).wf(),
            final(self).bg_fifo.y == old(self).bg_fifo.y,
            final(self).bg_fifo.state == old(self).bg_fifo.state,
    {
        self.lyc = bus.read_byte(LYC_ADDR);
        self.scy = bus.read_byte(SCY_ADDR);
        self.scx = bus.read_byte(SCX_ADDR);
        self.wy = bus.read_byte(WY_ADDR);
        self.wx = bus.read_byte(WX_ADDR);
        self.lcd_control.update_from_byte(bus.read_byte(LCD_CONTROL_ADDR));
        proof {
            assert(self@ =~~= spec_after_update_registers(old(self)@, bus@));
        }
    }
}

impl Default for Ppu {
    fn default() -> (r: Ppu)
        ensures
            r.wf(),
            r@ == spec_ppu_init(),
            r.bg_fifo.y == 0 && r.bg_fifo.state == 0,
    {
        Ppu::new()
    }
}

} // verus!
