//! A flat memory bus: one backing array for every RAM region plus the ROM
//! image split into 16 KiB banks, read-only through the ROM range.

use crate::memory::region::MemoryRegion;
use crate::mmu::mbc::{rom_byte, BANK_SIZE};
use vstd::prelude::*;

verus! {

pub struct MemoryBus {
    pub data: Vec<u8>,
    pub rom_banks: Vec<Vec<u8>>,
    pub current_rom_bank: usize,
}

impl MemoryBus {
    pub open spec fn wf(self) -> bool {
        &&& self.data.len() == 0x10000
        &&& self.rom_banks.len() >= 2
        &&& forall|b: int|
            0 <= b < self.rom_banks.len() ==> (#[trigger] self.rom_banks[b]).len() == BANK_SIZE
        &&& self.current_rom_bank < self.rom_banks.len()
    }

    /// The value a read observes: the unusable range reads 0xFF, LY is
    /// pinned to 0x90, the ROM range reads its banks, the echo range reads
    /// 0x2000 below itself, everything else reads the backing array.
    pub open spec fn spec_read(self, addr: u16) -> u8 {
        let region = MemoryRegion::spec_from(addr);
        if region == MemoryRegion::Unusable {
            0xFF
        } else if addr == 0xFF44 {
            0x90
        } else if region == MemoryRegion::RomBank0 {
            self.rom_banks[0][addr as int]
        } else if region == MemoryRegion::RomBank1N {
            self.rom_banks[self.current_rom_bank as int][addr - 0x4000]
        } else {
            self.data[region.spec_translate(addr) as int]
        }
    }

    /// The backing array after a write: the unusable range drops it, the
    /// echo range stores 0x2000 below itself, everything else stores in
    /// place. The ROM range shadows into the array, which reads never see.
    pub open spec fn spec_data_after(self, addr: u16, val: u8) -> Seq<u8> {
        let region = MemoryRegion::spec_from(addr);
        if region == MemoryRegion::Unusable {
            self.data@
        } else {
            self.data@.update(region.spec_translate(addr) as int, val)
        }
    }

    /// Split a full ROM image into banks (zero-padded to 16 KiB multiples
    /// and to at least two banks) and start with zeroed RAM.
    pub fn new(rom: Vec<u8>) -> (r: MemoryBus)
        requires
            rom.len() <= 0x80_0000,
        ensures
            r.wf(),
            r.current_rom_bank == 1,
            forall|b: int, i: int|
                0 <= b < r.rom_banks.len() && 0 <= i < BANK_SIZE ==> r.rom_banks[b][i] == rom_byte(
                    rom@,
                    b * BANK_SIZE + i,
                ),
            forall|i: int| 0 <= i < 0x4000 ==> r.data[i] == 0,
            forall|i: int|
                0x4000 <= i < 0x10000 ==> r.data[i] == rom_byte(rom@, i - 0x4000),
    {
        let mbc = crate::mmu::mbc::Mbc::new(&rom);
        let banks = mbc.banks;

        let mut data: Vec<u8> = Vec::new();
        let mut i: usize = 0;
        while i < 0x10000
            invariant
                i == data.len(),
                i <= 0x10000,
                forall|j: int| 0 <= j < i ==> data[j] == 0,
            decreases 0x10000 - i,
        {
            data.push(0);
            i += 1;
        }

        let mut rom_address: usize = 0x4000;
        let mut k: usize = 0;
        while k < rom.len() && rom_address < 0x10000
            invariant
                rom.len() <= 0x80_0000,
                rom_address == 0x4000 + k,
                data.len() == 0x10000,
                forall|j: int| 0 <= j < 0x4000 ==> data[j] == 0,
                forall|j: int| 0x4000 <= j < rom_address ==> data[j] == rom_byte(rom@, j - 0x4000),
                forall|j: int| rom_address <= j < 0x10000 ==> data[j] == 0,
            decreases 0x10000 - rom_address,
        {
            data.set(rom_address, rom[k]);
            rom_address += 1;
            k += 1;
        }
        proof {
            assert forall|j: int| 0x4000 <= j < 0x10000 implies data[j] == rom_byte(
                rom@,
                j - 0x4000,
            ) by {}
        }

        let r = MemoryBus { data, rom_banks: banks, current_rom_bank: 1 };
        proof {
            assert forall|b: int, i: int|
                0 <= b < r.rom_banks.len() && 0 <= i < BANK_SIZE implies r.rom_banks[b][i]
                == rom_byte(rom@, b * BANK_SIZE + i) by {
                assert(mbc.bank_byte(b, i) == rom_byte(rom@, b * BANK_SIZE + i));
            }
        }
        r
    }

    pub fn read_byte(&self, addr: u16) -> (r: u8)
        requires
            self.wf(),
        returns
            self.spec_read(addr),
    {
        let region = MemoryRegion::from(addr);

        if !region.is_readable() {
            return 0xFF;
        }

        if addr == 0xFF44 {
            return 0x90;
        }

        match region {
            MemoryRegion::RomBank0 => {
                return self.rom_banks[0][addr as usize];
            },
            MemoryRegion::RomBank1N => {
                let offset = (addr - 0x4000) as usize;

                return self.rom_banks[self.current_rom_bank][offset];
            },
            _ => {},
        }

        let phys = region.translate_into_physical_address(addr);

        self.data[phys as usize]
    }

    pub fn write_byte(&mut self, addr: u16, val: u8)
        requires
            old(self).wf(),
        ensures
            final(self).wf(),
            final(self).data@ == old(self).spec_data_after(addr, val),
            final(self).rom_banks == old(self).rom_banks,
            final(self).current_rom_bank == old(self).current_rom_bank,
    {
        let region = MemoryRegion::from(addr);

        if !region.is_writable() {
            return;
        }

        let phys = region.translate_into_physical_address(addr);

        self.data.set(phys as usize, val);
    }
}

impl Default for MemoryBus {
    fn default() -> (r: MemoryBus)
        ensures
            r.wf(),
            r.current_rom_bank == 1,
            forall|i: int| 0 <= i < 0x10000 ==> r.data[i] == 0,
            forall|b: int, i: int|
                0 <= b < r.rom_banks.len() && 0 <= i < BANK_SIZE ==> r.rom_banks[b][i] == 0,
    {
        MemoryBus::new(Vec::new())
    }
}

} // verus!
