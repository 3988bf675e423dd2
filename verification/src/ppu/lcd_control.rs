//! The LCDC register: eight control bits held as booleans, with the tile-map
//! and tile-data base addresses they select.

use vstd::prelude::*;

verus! {

/// Base of the first background/window tile map.
pub const TILE_MAP_0: u16 = 0x9800;

/// Base of the second background/window tile map.
pub const TILE_MAP_1: u16 = 0x9C00;

/// Base of the signed tile-data area (indices off 0x9000).
pub const TILE_DATA_0: u16 = 0x8800;

/// Base of the unsigned tile-data area.
pub const TILE_DATA_1: u16 = 0x8000;

pub const PPU_ENABLE_MASK: u8 = 0b1000_0000;

pub const WINDOW_TILE_MAP_MASK: u8 = 0b0100_0000;

pub const WINDOW_ENABLE_MASK: u8 = 0b0010_0000;

pub const BG_WINDOW_TILE_DATA_MASK: u8 = 0b0001_0000;

pub const BG_TILE_MAP_MASK: u8 = 0b0000_1000;

pub const OBJ_SIZE_MASK: u8 = 0b0000_0100;

pub const OBJ_ENABLE_MASK: u8 = 0b0000_0010;

pub const BG_WINDOW_ENABLE_MASK: u8 = 0b0000_0001;

#[derive(Clone, Copy, PartialEq, Eq, Structural)]
pub struct LcdControl {
    pub ppu_enable: bool,
    pub window_tile_map_area: bool,
    pub window_enable: bool,
    pub bg_window_tile_data_area: bool,
    pub bg_tile_map_area: bool,
    pub obj_size_8x16: bool,
    pub obj_enable: bool,
    pub bg_window_enable: bool,
}

impl Default for LcdControl {
    fn default() -> (r: LcdControl)
        ensures
            r == LcdControl::spec_default(),
    {
        LcdControl {
            ppu_enable: false,
            window_tile_map_area: false,
            window_enable: false,
            bg_window_tile_data_area: false,
            bg_tile_map_area: false,
            obj_size_8x16: false,
            obj_enable: false,
            bg_window_enable: false,
        }
    }
}

impl LcdControl {
    pub open spec fn spec_default() -> LcdControl {
        LcdControl {
            ppu_enable: false,
            window_tile_map_area: false,
            window_enable: false,
            bg_window_tile_data_area: false,
            bg_tile_map_area: false,
            obj_size_8x16: false,
            obj_enable: false,
            bg_window_enable: false,
        }
    }

    /// The control state a write of `value` to LCDC decodes to.
    pub open spec fn spec_from_byte(value: u8) -> LcdControl {
        LcdControl {
            ppu_enable: value & PPU_ENABLE_MASK != 0,
            window_tile_map_area: value & WINDOW_TILE_MAP_MASK != 0,
            window_enable: value & WINDOW_ENABLE_MASK != 0,
            bg_window_tile_data_area: value & BG_WINDOW_TILE_DATA_MASK != 0,
            bg_tile_map_area: value & BG_TILE_MAP_MASK != 0,
            obj_size_8x16: value & OBJ_SIZE_MASK != 0,
            obj_enable: value & OBJ_ENABLE_MASK != 0,
            bg_window_enable: value & BG_WINDOW_ENABLE_MASK != 0,
        }
    }

    pub fn enable_ppu(&mut self, enable: bool)
        ensures
            *final(self) == (LcdControl { ppu_enable: enable, ..*old(self) }),
    {
        self.ppu_enable = enable;
    }

    pub fn select_window_tile_map(&mut self, use_map1: bool)
        ensures
            *final(self) == (LcdControl { window_tile_map_area: use_map1, ..*old(self) }),
    {
        self.window_tile_map_area = use_map1;
    }

    pub fn enable_window(&mut self, enable: bool)
        ensures
            *final(self) == (LcdControl { window_enable: enable, ..*old(self) }),
    {
        self.window_enable = enable;
    }

    pub fn select_bg_window_tile_data(&mut self, use_data1: bool)
        ensures
            *final(self) == (LcdControl { bg_window_tile_data_area: use_data1, ..*old(self) }),
    {
        self.bg_window_tile_data_area = use_data1;
    }

    pub fn select_bg_tile_map(&mut self, use_map1: bool)
        ensures
            *final(self) == (LcdControl { bg_tile_map_area: use_map1, ..*old(self) }),
    {
        self.bg_tile_map_area = use_map1;
    }

    pub fn set_obj_size_8x16(&mut self, is_8x16: bool)
        ensures
            *final(self) == (LcdControl { obj_size_8x16: is_8x16, ..*old(self) }),
    {
        self.obj_size_8x16 = is_8x16;
    }

    pub fn enable_obj(&mut self, enable: bool)
        ensures
            *final(self) == (LcdControl { obj_enable: enable, ..*old(self) }),
    {
        self.obj_enable = enable;
    }

    pub fn enable_bg_window(&mut self, enable: bool)
        ensures
            *final(self) == (LcdControl { bg_window_enable: enable, ..*old(self) }),
    {
        self.bg_window_enable = enable;
    }

    pub fn is_ppu_enabled(&self) -> (r: bool)
        returns
            self.ppu_enable,
    {
        self.ppu_enable
    }

    /// The base of the tile map the window uses.
    pub open spec fn spec_window_tile_map_area(self) -> u16 {
        if self.window_tile_map_area {
            TILE_MAP_1
        } else {
            TILE_MAP_0
        }
    }

    pub fn window_tile_map_area(&self) -> (r: u16)
        returns
            self.spec_window_tile_map_area(),
    {
        if self.window_tile_map_area {
            TILE_MAP_1
        } else {
            TILE_MAP_0
        }
    }

    pub fn is_window_enabled(&self) -> (r: bool)
        returns
            self.window_enable,
    {
        self.window_enable
    }

    /// The base of the tile-data area the background and window use:
    /// unsigned indices off 0x8000, or signed indices around 0x9000.
    pub open spec fn spec_bg_window_tile_data_area(self) -> u16 {
        if self.bg_window_tile_data_area {
            TILE_DATA_1
        } else {
            TILE_DATA_0
        }
    }

    pub fn bg_window_tile_data_area(&self) -> (r: u16)
        returns
            self.spec_bg_window_tile_data_area(),
    {
        if self.bg_window_tile_data_area {
            TILE_DATA_1
        } else {
            TILE_DATA_0
        }
    }

    /// The base of the tile map the background uses.
    pub open spec fn spec_bg_tile_map_area(self) -> u16 {
        if self.bg_tile_map_area {
            TILE_MAP_1
        } else {
            TILE_MAP_0
        }
    }

    pub fn bg_tile_map_area(&self) -> (r: u16)
        returns
            self.spec_bg_tile_map_area(),
    {
        if self.bg_tile_map_area {
            TILE_MAP_1
        } else {
            TILE_MAP_0
        }
    }

    pub fn is_obj_size_8x16(&self) -> (r: bool)
        returns
            self.obj_size_8x16,
    {
        self.obj_size_8x16
    }

    pub fn is_obj_enabled(&self) -> (r: bool)
        returns
            self.obj_enable,
    {
        self.obj_enable
    }

    pub fn is_bg_window_enabled(&self) -> (r: bool)
        returns
            self.bg_window_enable,
    {
        self.bg_window_enable
    }

    /// Decode a byte written to LCDC into all eight control bits.
    pub fn update_from_byte(&mut self, value: u8)
        ensures
            *final(self) == LcdControl::spec_from_byte(value),
    {
        self.ppu_enable = value & PPU_ENABLE_MASK != 0;
        self.window_tile_map_area = value & WINDOW_TILE_MAP_MASK != 0;
        self.window_enable = value & WINDOW_ENABLE_MASK != 0;
        self.bg_window_tile_data_area = value & BG_WINDOW_TILE_DATA_MASK != 0;
        self.bg_tile_map_area = value & BG_TILE_MAP_MASK != 0;
        self.obj_size_8x16 = value & OBJ_SIZE_MASK != 0;
        self.obj_enable = value & OBJ_ENABLE_MASK != 0;
        self.bg_window_enable = value & BG_WINDOW_ENABLE_MASK != 0;
    }
}

} // verus!
