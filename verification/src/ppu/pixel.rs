//! One entry of the pixel FIFO: a shade plus the palette and priority
//! attributes that sprite mixing consults.

use crate::ppu::colors_palette::Color;
use vstd::prelude::*;

verus! {

#[derive(Debug, Clone, Copy, PartialEq, Eq, Structural)]
pub struct Pixel {
    pub color: Color,
    pub palette: u8,
    pub sprite_priority: u8,
    pub background_priority: u8,
}

impl Pixel {
    pub fn new(color: Color, palette: u8, sprite_priority: u8, background_priority: u8) -> (r:
        Pixel)
        ensures
            r == (Pixel { color, palette, sprite_priority, background_priority }),
    {
        Pixel { color, palette, sprite_priority, background_priority }
    }

    pub fn get_color(&self) -> (r: Color)
        returns
            self.color,
    {
        self.color
    }

    pub fn get_palette(&self) -> (r: u8)
        returns
            self.palette,
    {
        self.palette
    }

    pub fn get_sprite_priority(&self) -> (r: u8)
        returns
            self.sprite_priority,
    {
        self.sprite_priority
    }

    pub fn get_background_priority(&self) -> (r: u8)
        returns
            self.background_priority,
    {
        self.background_priority
    }
}

impl Default for Pixel {
    fn default() -> (r: Pixel)
        ensures
            r == (Pixel {
                color: Color::White,
                palette: 0,
                sprite_priority: 0,
                background_priority: 0,
            }),
    {
        Pixel { color: Color::White, palette: 0, sprite_priority: 0, background_priority: 0 }
    }
}

} // verus!
