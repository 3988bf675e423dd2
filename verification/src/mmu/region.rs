//! A finer partition of the address space used by the flat memory bus, with
//! the echo range translated down onto work RAM.

use vstd::prelude::*;

verus! {

#[derive(PartialEq, Eq, Structural)]
pub enum MemoryRegion {
    /// 0x0000-0x7FFF: banked ROM.
    Rbank,
    /// 0x8000-0x9FFF.
    Vram,
    /// 0xA000-0xBFFF.
    ExternalRam,
    /// 0xC000-0xDFFF.
    Wram,
    /// 0xE000-0xFDFF: mirror of 0xC000-0xDDFF.
    Echo,
    /// 0xFE00-0xFE9F.
    Oam,
    /// 0xFEA0-0xFEFF.
    Unusable,
    /// 0xFF00-0xFF7F.
    Io,
    /// 0xFF80-0xFFFE.
    HRam,
    /// 0xFFFF.
    Ie,
}

impl MemoryRegion {
    pub open spec fn spec_from(addr: u16) -> MemoryRegion {
        if addr <= 0x7FFF {
            MemoryRegion::Rbank
        } else if addr <= 0x9FFF {
            MemoryRegion::Vram
        } else if addr <= 0xBFFF {
            MemoryRegion::ExternalRam
        } else if addr <= 0xDFFF {
            MemoryRegion::Wram
        } else if addr <= 0xFDFF {
            MemoryRegion::Echo
        } else if addr <= 0xFE9F {
            MemoryRegion::Oam
        } else if addr <= 0xFEFF {
            MemoryRegion::Unusable
        } else if addr <= 0xFF7F {
            MemoryRegion::Io
        } else if addr <= 0xFFFE {
            MemoryRegion::HRam
        } else {
            MemoryRegion::Ie
        }
    }

    #[verifier::when_used_as_spec(spec_from)]
    pub fn from(addr: u16) -> (r: MemoryRegion)
        returns
            MemoryRegion::spec_from(addr),
    {
        if addr <= 0x7FFF {
            MemoryRegion::Rbank
        } else if addr <= 0x9FFF {
            MemoryRegion::Vram
        } else if addr <= 0xBFFF {
            MemoryRegion::ExternalRam
        } else if addr <= 0xDFFF {
            MemoryRegion::Wram
        } else if addr <= 0xFDFF {
            MemoryRegion::Echo
        } else if addr <= 0xFE9F {
            MemoryRegion::Oam
        } else if addr <= 0xFEFF {
            MemoryRegion::Unusable
        } else if addr <= 0xFF7F {
            MemoryRegion::Io
        } else if addr <= 0xFFFE {
            MemoryRegion::HRam
        } else {
            MemoryRegion::Ie
        }
    }

    /// Every region but the unusable one can be read.
    pub fn is_readable(&self) -> (r: bool)
        returns
            *self != MemoryRegion::Unusable,
    {
        !matches!(self, MemoryRegion::Unusable)
    }

    /// Every region but the unusable one accepts writes.
    pub fn is_writable(&self) -> (r: bool)
        returns
            *self != MemoryRegion::Unusable,
    {
        !matches!(self, MemoryRegion::Unusable)
    }

    /// The backing address for `addr`: the echo range maps 0x2000 below
    /// itself, every other region is backed in place.
    pub open spec fn spec_translate(self, addr: u16) -> u16 {
        if self == MemoryRegion::Echo {
            (addr - 0x2000) as u16
        } else {
            addr
        }
    }

    pub fn translate_into_physical_address(&self, addr: u16) -> (r: u16)
        requires
            *self == MemoryRegion::Echo ==> addr >= 0xE000,
        returns
            self.spec_translate(addr),
    {
        match self {
            MemoryRegion::Echo => addr - 0x2000,
            _ => addr,
        }
    }
}

} // verus!
