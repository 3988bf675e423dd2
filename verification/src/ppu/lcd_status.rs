//! The STAT register's state: the PPU mode, the LY==LYC flag and the
//! interrupt-source selects, together with the dot-exact mode timetable of a
//! frame.

use vstd::prelude::*;

verus! {

/// A scanline lasts 456 dots.
pub const DOTS_PER_LINE: u32 = 456;

/// 144 visible scanlines and 10 VBlank scanlines.
pub const VISIBLE_LINES: u32 = 144;

pub const TOTAL_LINES: u32 = 154;

/// OAM search occupies the first 80 dots of a visible line.
pub const OAM_SEARCH_DOTS: u32 = 80;

/// Pixel transfer occupies the next 172 dots of a visible line.
pub const PIXEL_TRANSFER_DOTS: u32 = 172;

/// A frame is exactly 154 * 456 = 70,224 dots.
pub const FRAME_DOTS: u32 = 70224;

#[derive(Debug, Copy, Clone, PartialEq, Eq, Structural)]
pub enum PpuMode {
    HBlank,
    VBlank,
    OamSearch,
    PixelTransfer,
}

impl Default for PpuMode {
    fn default() -> (r: PpuMode)
        ensures
            r == PpuMode::HBlank,
    {
        PpuMode::HBlank
    }
}

impl PpuMode {
    /// The two mode bits as they appear in STAT.
    pub open spec fn spec_bits(self) -> u8 {
        match self {
            PpuMode::HBlank => 0,
            PpuMode::VBlank => 1,
            PpuMode::OamSearch => 2,
            PpuMode::PixelTransfer => 3,
        }
    }

    #[verifier::when_used_as_spec(spec_bits)]
    pub fn bits(self) -> (r: u8)
        returns
            self.spec_bits(),
    {
        match self {
            PpuMode::HBlank => 0,
            PpuMode::VBlank => 1,
            PpuMode::OamSearch => 2,
            PpuMode::PixelTransfer => 3,
        }
    }
}

/// The mode the PPU is in at dot `dot` of a frame: each visible scanline
/// runs OAM search, then pixel transfer, then HBlank for the rest of its
/// 456 dots; scanlines 144-153 are VBlank.
pub open spec fn spec_mode_for_dot(dot: u32) -> PpuMode
    recommends
        dot < FRAME_DOTS,
{
    let line = dot / DOTS_PER_LINE;
    let line_dot = dot % DOTS_PER_LINE;
    if line >= VISIBLE_LINES {
        PpuMode::VBlank
    } else if line_dot < OAM_SEARCH_DOTS {
        PpuMode::OamSearch
    } else if line_dot < OAM_SEARCH_DOTS + PIXEL_TRANSFER_DOTS {
        PpuMode::PixelTransfer
    } else {
        PpuMode::HBlank
    }
}

#[verifier::when_used_as_spec(spec_mode_for_dot)]
pub fn mode_for_dot(dot: u32) -> (r: PpuMode)
    returns
        spec_mode_for_dot(dot),
{
    let line = dot / DOTS_PER_LINE;
    let line_dot = dot % DOTS_PER_LINE;
    if line >= VISIBLE_LINES {
        PpuMode::VBlank
    } else if line_dot < OAM_SEARCH_DOTS {
        PpuMode::OamSearch
    } else if line_dot < OAM_SEARCH_DOTS + PIXEL_TRANSFER_DOTS {
        PpuMode::PixelTransfer
    } else {
        PpuMode::HBlank
    }
}

/// On every visible scanline the mode runs through exactly the cycle
/// 2 (OAM search), 3 (pixel transfer), 0 (HBlank), in that order and with
/// the documented spans; every dot of scanlines 144-153 is VBlank; and a
/// frame holds exactly 70,224 dots (154 lines of 456).
pub proof fn lemma_ppu_mode_cycle(line: u32, line_dot: u32)
    requires
        line < TOTAL_LINES,
        line_dot < DOTS_PER_LINE,
    ensures
        line * DOTS_PER_LINE + line_dot < FRAME_DOTS,
        FRAME_DOTS == TOTAL_LINES * DOTS_PER_LINE,
        ({
            let mode = spec_mode_for_dot((line * DOTS_PER_LINE + line_dot) as u32);
            &&& line < VISIBLE_LINES && line_dot < OAM_SEARCH_DOTS ==> mode == PpuMode::OamSearch
            &&& line < VISIBLE_LINES && OAM_SEARCH_DOTS <= line_dot < OAM_SEARCH_DOTS
                + PIXEL_TRANSFER_DOTS ==> mode == PpuMode::PixelTransfer
            &&& line < VISIBLE_LINES && OAM_SEARCH_DOTS + PIXEL_TRANSFER_DOTS <= line_dot ==> mode
                == PpuMode::HBlank
            &&& line >= VISIBLE_LINES ==> mode == PpuMode::VBlank
        }),
{
    let dot = (line * DOTS_PER_LINE + line_dot) as u32;
    assert(line * 456 + line_dot < 70224) by (nonlinear_arith)
        requires
            line < 154,
            line_dot < 456,
    ;
    assert(dot / DOTS_PER_LINE == line && dot % DOTS_PER_LINE == line_dot) by (nonlinear_arith)
        requires
            line_dot < DOTS_PER_LINE,
            dot == line * DOTS_PER_LINE + line_dot,
            DOTS_PER_LINE == 456,
    ;
}

pub struct LcdStatus {
    pub lyc_int_select: bool,
    pub mode_2_int_select: bool,
    pub mode_1_int_select: bool,
    pub mode_0_int_select: bool,
    pub lyc_equals_ly: bool,
    pub ppu_mode: PpuMode,
}

impl LcdStatus {
    pub fn new() -> (r: LcdStatus)
        ensures
            !r.lyc_int_select && !r.mode_2_int_select && !r.mode_1_int_select
                && !r.mode_0_int_select,
            !r.lyc_equals_ly,
            r.ppu_mode == PpuMode::HBlank,
    {
        LcdStatus {
            lyc_int_select: false,
            mode_2_int_select: false,
            mode_1_int_select: false,
            mode_0_int_select: false,
            lyc_equals_ly: false,
            ppu_mode: PpuMode::HBlank,
        }
    }

    pub fn get_ppu_mode(&self) -> (r: PpuMode)
        returns
            self.ppu_mode,
    {
        self.ppu_mode
    }

    pub fn update_ppu_mode(&mut self, mode: PpuMode)
        ensures
            *final(self) == (LcdStatus { ppu_mode: mode, ..*old(self) }),
    {
        self.ppu_mode = mode;
    }

    pub fn set_lyc_equals_ly(&mut self, equals: bool)
        ensures
            *final(self) == (LcdStatus { lyc_equals_ly: equals, ..*old(self) }),
    {
        self.lyc_equals_ly = equals;
    }

    /// The STAT byte this status reads back as: the mode in bits 0-1, the
    /// LY==LYC flag at bit 2, and the four interrupt-source selects at bits
    /// 3-6.
    pub open spec fn spec_stat_byte(self) -> u8 {
        (if self.lyc_int_select {
            0x40u8
        } else {
            0u8
        }) | (if self.mode_2_int_select {
            0x20u8
        } else {
            0u8
        }) | (if self.mode_1_int_select {
            0x10u8
        } else {
            0u8
        }) | (if self.mode_0_int_select {
            0x08u8
        } else {
            0u8
        }) | (if self.lyc_equals_ly {
            0x04u8
        } else {
            0u8
        }) | self.ppu_mode.spec_bits()
    }

    pub fn stat_byte(&self) -> (r: u8)
        returns
            self.spec_stat_byte(),
    {
        (if self.lyc_int_select {
            0x40u8
        } else {
            0u8
        }) | (if self.mode_2_int_select {
            0x20u8
        } else {
            0u8
        }) | (if self.mode_1_int_select {
            0x10u8
        } else {
            0u8
        }) | (if self.mode_0_int_select {
            0x08u8
        } else {
            0u8
        }) | (if self.lyc_equals_ly {
            0x04u8
        } else {
            0u8
        }) | self.ppu_mode.bits()
    }
}

impl Default for LcdStatus {
    fn default() -> (r: LcdStatus)
        ensures
            !r.lyc_int_select && !r.mode_2_int_select && !r.mode_1_int_select
                && !r.mode_0_int_select,
            !r.lyc_equals_ly,
            r.ppu_mode == PpuMode::HBlank,
    {
        LcdStatus::new()
    }
}

} // verus!
