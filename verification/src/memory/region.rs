//! Address-space partition used by the flat memory bus.

use vstd::prelude::*;

verus! {

#[derive(PartialEq, Eq, Structural)]
pub enum MemoryRegion {
    /// 0x0000-0x3FFF: fixed ROM bank.
    RomBank0,
    /// 0x4000-0x7FFF: switchable ROM bank.
    RomBank1N,
    /// 0x8000-0x9FFF.
    Vram,
    /// 0xA000-0xBFFF.
    ExternalRam,
    /// 0xC000-0xCFFF.
    WorkRamBank0,
    /// 0xD000-0xDFFF.
    WorkRamBank1_7,
    /// 0xE000-0xFDFF: mirror of 0xC000-0xDDFF.
    Echo,
    /// 0xFE00-0xFE9F.
    Oam,
    /// 0xFEA0-0xFEFF.
    Unusable,
    /// 0xFF00-0xFF7F.
    Io,
    /// 0xFF80-0xFFFE.
    HRam,
    /// 0xFFFF.
    Ie,
}

impl MemoryRegion {
    pub open spec fn spec_from(addr: u16) -> MemoryRegion {
        if addr <= 0x3FFF {
            MemoryRegion::RomBank0
        } else if addr <= 0x7FFF {
            MemoryRegion::RomBank1N
        } else if addr <= 0x9FFF {
            MemoryRegion::Vram
        } else if addr <= 0xBFFF {
            MemoryRegion::ExternalRam
        } else if addr <= 0xCFFF {
            MemoryRegion::WorkRamBank0
        } else if addr <= 0xDFFF {
            MemoryRegion::WorkRamBank1_7
        } else if addr <= 0xFDFF {
            MemoryRegion::Echo
        } else if addr <= 0xFE9F {
            MemoryRegion::Oam
        } else if addr <= 0xFEFF {
            MemoryRegion::Unusable
        } else if addr <= 0xFF7F {
            MemoryRegion::Io
        } else if addr <= 0xFFFE {
            MemoryRegion::HRam
        } else {
            MemoryRegion::Ie
        }
    }

    #[verifier::when_used_as_spec(spec_from)]
    pub fn from(addr: u16) -> (r: MemoryRegion)
        returns
            MemoryRegion::spec_from(addr),
    {
        if addr <= 0x3FFF {
            MemoryRegion::RomBank0
        } else if addr <= 0x7FFF {
            MemoryRegion::RomBank1N
        } else if addr <= 0x9FFF {
            MemoryRegion::Vram
        } else if addr <= 0xBFFF {
            MemoryRegion::ExternalRam
        } else if addr <= 0xCFFF {
            MemoryRegion::WorkRamBank0
        } else if addr <= 0xDFFF {
            MemoryRegion::WorkRamBank1_7
        } else if addr <= 0xFDFF {
            MemoryRegion::Echo
        } else if addr <= 0xFE9F {
            MemoryRegion::Oam
        } else if addr <= 0xFEFF {
            MemoryRegion::Unusable
        } else if addr <= 0xFF7F {
            MemoryRegion::Io
        } else if addr <= 0xFFFE {
            MemoryRegion::HRam
        } else {
            MemoryRegion::Ie
        }
    }

    pub fn is_readable(&self) -> (r: bool)
        returns
            *self != MemoryRegion::Unusable,
    {
        !matches!(self, MemoryRegion::Unusable)
    }

    pub fn is_writable(&self) -> (r: bool)
        returns
            *self != MemoryRegion::Unusable,
    {
        !matches!(self, MemoryRegion::Unusable)
    }

    /// The backing address: the echo range maps 0x2000 below itself.
    pub open spec fn spec_translate(self, addr: u16) -> u16 {
        if self == MemoryRegion::Echo {
            (addr - 0x2000) as u16
        } else {
            addr
        }
    }

    pub fn translate_into_physical_address(&self, addr: u16) -> (r: u16)
        requires
            *self == MemoryRegion::Echo ==> addr >= 0xE000,
        returns
            self.spec_translate(addr),
    {
        match self {
            MemoryRegion::Echo => addr - 0x2000,
            _ => addr,
        }
    }
}

} // verus!
