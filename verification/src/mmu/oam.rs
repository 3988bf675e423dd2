//! Sprite attribute table: 40 entries of 4 bytes each, addressed at
//! 0xFE00-0xFE9F as (index, field) = ((addr - 0xFE00) / 4, (addr - 0xFE00) % 4).

use vstd::prelude::*;

verus! {

pub const OAM_BASE: u16 = 0xFE00;

pub const SPRITE_COUNT: usize = 40;

/// One sprite descriptor: position (biased by +16 / +8), tile index and the
/// attribute flags (priority, flips, palette).
#[derive(Clone, Copy)]
pub struct OamBytes {
    pub y: u8,
    pub x: u8,
    pub tile: u8,
    pub flags: u8,
}

impl Default for OamBytes {
    fn default() -> (r: OamBytes)
        ensures
            r.y == 0 && r.x == 0 && r.tile == 0 && r.flags == 0,
    {
        OamBytes { y: 0, x: 0, tile: 0, flags: 0 }
    }
}

impl OamBytes {
    /// Whether this sprite covers scanline `ly` at sprite height `height`
    /// (8 or 16): its stored position is biased by +16, and only the 144
    /// visible scanlines count.
    pub open spec fn spec_visible_on_line(self, ly: u8, height: u8) -> bool {
        let top = self.y - 16;
        &&& ly >= top
        &&& ly < top + height
        &&& ly < 144
    }

    pub fn visible_on_line(&self, ly: u8, height: u8) -> (r: bool)
        returns
            self.spec_visible_on_line(ly, height),
    {
        let top = self.y as i32 - 16;
        (ly as i32) >= top && (ly as i32) < top + height as i32 && ly < 144
    }
}

pub struct Oam {
    pub sprites: Vec<OamBytes>,
}

impl Oam {
    pub open spec fn wf(self) -> bool {
        self.sprites.len() == SPRITE_COUNT
    }

    /// The field of sprite `addr / 4` that a read of `addr` observes.
    pub open spec fn spec_read(self, addr: u16) -> u8 {
        let off = (addr - OAM_BASE) as int;
        let sprite = self.sprites[off / 4];
        if off % 4 == 0 {
            sprite.y
        } else if off % 4 == 1 {
            sprite.x
        } else if off % 4 == 2 {
            sprite.tile
        } else {
            sprite.flags
        }
    }

    /// Every entry starts as 0xFF in every field.
    pub fn new() -> (r: Oam)
        ensures
            r.wf(),
            forall|i: int|
                0 <= i < SPRITE_COUNT ==> {
                    let s = #[trigger] r.sprites[i];
                    s.y == 0xFF && s.x == 0xFF && s.tile == 0xFF && s.flags == 0xFF
                },
    {
        let mut sprites: Vec<OamBytes> = Vec::new();
        let mut i: usize = 0;
        while i < SPRITE_COUNT
            invariant
                i == sprites.len(),
                i <= SPRITE_COUNT,
                forall|j: int|
                    0 <= j < i ==> {
                        let s = #[trigger] sprites[j];
                        s.y == 0xFF && s.x == 0xFF && s.tile == 0xFF && s.flags == 0xFF
                    },
            decreases SPRITE_COUNT - i,
        {
            sprites.push(OamBytes { y: 0xFF, x: 0xFF, tile: 0xFF, flags: 0xFF });
            i += 1;
        }
        Oam { sprites }
    }

    pub fn read(&self, addr: u16) -> (r: u8)
        requires
            self.wf(),
            OAM_BASE <= addr < OAM_BASE + 4 * SPRITE_COUNT,
        returns
            self.spec_read(addr),
    {
        let off = (addr - OAM_BASE) as usize;
        let sprite = &self.sprites[off / 4];
        let field = off % 4;
        if field == 0 {
            sprite.y
        } else if field == 1 {
            sprite.x
        } else if field == 2 {
            sprite.tile
        } else {
            sprite.flags
        }
    }

    pub fn write(&mut self, addr: u16, val: u8)
        requires
            old(self).wf(),
            OAM_BASE <= addr < OAM_BASE + 4 * SPRITE_COUNT,
        ensures
            final(self).wf(),
            final(self).spec_read(addr) == val,
            forall|a: u16|
                OAM_BASE <= a < OAM_BASE + 4 * SPRITE_COUNT && a != addr
                    ==> #[trigger] final(self).spec_read(a) == old(self).spec_read(a),
    {
        let off = (addr - OAM_BASE) as usize;
        let idx = off / 4;
        let field = off % 4;
        let mut sprite = self.sprites[idx];
        if field == 0 {
            sprite.y = val;
        } else if field == 1 {
            sprite.x = val;
        } else if field == 2 {
            sprite.tile = val;
        } else {
            sprite.flags = val;
        }
        self.sprites.set(idx, sprite);
        proof {
            assert forall|a: u16|
                OAM_BASE <= a < OAM_BASE + 4 * SPRITE_COUNT && a != addr implies #[trigger] self
                .spec_read(a) == old(self).spec_read(a) by {
                let oa = (a - OAM_BASE) as int;
                let ooff = (addr - OAM_BASE) as int;
                if oa / 4 == ooff / 4 {
                    assert(oa % 4 != ooff % 4) by {
                        vstd::arithmetic::div_mod::lemma_fundamental_div_mod(oa, 4);
                        vstd::arithmetic::div_mod::lemma_fundamental_div_mod(ooff, 4);
                    }
                }
            }
        }
    }
}

} // verus!
