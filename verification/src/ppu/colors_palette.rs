//! The four DMG shades and their fixed RGB palette.

use vstd::prelude::*;

verus! {

#[derive(Clone, Copy, Debug, PartialEq, Eq, Structural)]
pub enum Color {
    White,
    LightGray,
    DarkGray,
    Black,
}

impl Color {
    /// The canonical RGB triple of each shade.
    pub open spec fn spec_rgb(self) -> (u8, u8, u8) {
        match self {
            Color::White => (255, 255, 255),
            Color::LightGray => (192, 192, 192),
            Color::DarkGray => (96, 96, 96),
            Color::Black => (0, 0, 0),
        }
    }

    pub fn to_rgb(self) -> (r: (u8, u8, u8))
        returns
            self.spec_rgb(),
    {
        match self {
            Color::White => (255, 255, 255),
            Color::LightGray => (192, 192, 192),
            Color::DarkGray => (96, 96, 96),
            Color::Black => (0, 0, 0),
        }
    }

    /// The shade whose canonical triple is `rgb`; only the four palette
    /// entries are meaningful.
    pub fn from_rgb(rgb: (u8, u8, u8)) -> (r: Color)
        requires
            rgb == (255u8, 255u8, 255u8) || rgb == (192u8, 192u8, 192u8) || rgb == (
                96u8,
                96u8,
                96u8,
            ) || rgb == (0u8, 0u8, 0u8),
        ensures
            r.spec_rgb() == rgb,
    {
        if rgb.0 == 255 {
            Color::White
        } else if rgb.0 == 192 {
            Color::LightGray
        } else if rgb.0 == 96 {
            Color::DarkGray
        } else {
            Color::Black
        }
    }

    /// The shade a 2-bit color index names.
    pub open spec fn spec_from_index(index: u8) -> Color {
        if index == 0 {
            Color::White
        } else if index == 1 {
            Color::LightGray
        } else if index == 2 {
            Color::DarkGray
        } else {
            Color::Black
        }
    }

    #[verifier::when_used_as_spec(spec_from_index)]
    pub fn from_index(index: u8) -> (r: Color)
        requires
            index < 4,
        returns
            Color::spec_from_index(index),
    {
        if index == 0 {
            Color::White
        } else if index == 1 {
            Color::LightGray
        } else if index == 2 {
            Color::DarkGray
        } else {
            Color::Black
        }
    }
}

} // verus!
