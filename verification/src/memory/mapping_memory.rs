//! A bank-less memory map: one flat array behind the region rules — the ROM
//! range is read-only, the echo range mirrors work RAM and the unusable
//! range reads 0xFF.

use crate::memory::region::MemoryRegion;
use vstd::prelude::*;

verus! {

pub struct Memory {
    pub data: Vec<u8>,
}

impl Memory {
    pub open spec fn wf(self) -> bool {
        self.data.len() == 0x10000
    }

    pub open spec fn spec_read(self, addr: u16) -> u8 {
        let region = MemoryRegion::spec_from(addr);
        if region == MemoryRegion::Unusable {
            0xFF
        } else {
            self.data[region.spec_translate(addr) as int]
        }
    }

    pub open spec fn spec_data_after(self, addr: u16, val: u8) -> Seq<u8> {
        let region = MemoryRegion::spec_from(addr);
        if region == MemoryRegion::Unusable || region == MemoryRegion::RomBank0 || region
            == MemoryRegion::RomBank1N {
            self.data@
        } else {
            self.data@.update(region.spec_translate(addr) as int, val)
        }
    }

    pub fn new() -> (r: Memory)
        ensures
            r.wf(),
            forall|i: int| 0 <= i < 0x10000 ==> r.data[i] == 0,
    {
        let mut data: Vec<u8> = Vec::new();
        let mut i: usize = 0;
        while i < 0x10000
            invariant
                i == data.len(),
                i <= 0x10000,
                forall|j: int| 0 <= j < i ==> data[j] == 0,
            decreases 0x10000 - i,
        {
            data.push(0);
            i += 1;
        }
        Memory { data }
    }

    pub fn read_byte(&self, addr: u16) -> (r: u8)
        requires
            self.wf(),
        returns
            self.spec_read(addr),
    {
        let region = MemoryRegion::from(addr);
        if !region.is_readable() {
            return 0xFF;
        }
        let phys = region.translate_into_physical_address(addr);
        self.data[phys as usize]
    }

    pub fn write_byte(&mut self, addr: u16, val: u8)
        requires
            old(self).wf(),
        ensures
            final(self).wf(),
            final(self).data@ == old(self).spec_data_after(addr, val),
    {
        let region = MemoryRegion::from(addr);
        if !region.is_writable() {
            return;
        }
        if addr <= 0x7FFF {
            return;
        }
        let phys = region.translate_into_physical_address(addr);
        self.data.set(phys as usize, val);
    }
}

} // verus!
