//! Banked ROM storage on its own: bank 0 fixed at 0x0000-0x3FFF and one
//! selectable bank at 0x4000-0x7FFF. Writes to ROM are ignored.

use crate::mmu::mbc::{rom_byte, BANK_SIZE};
use vstd::prelude::*;

verus! {

pub struct RomBanks {
    pub banks: Vec<Vec<u8>>,
    pub current: usize,
}

impl RomBanks {
    pub open spec fn wf(self) -> bool {
        &&& self.banks.len() >= 2
        &&& forall|b: int|
            0 <= b < self.banks.len() ==> (#[trigger] self.banks[b]).len() == BANK_SIZE
        &&& 1 <= self.current < self.banks.len()
    }

    pub fn new(rom_image: &Vec<u8>) -> (r: RomBanks)
        requires
            rom_image.len() <= 0x80_0000,
        ensures
            r.wf(),
            r.current == 1,
            forall|b: int, i: int|
                0 <= b < r.banks.len() && 0 <= i < BANK_SIZE ==> r.banks[b][i] == rom_byte(
                    rom_image@,
                    b * BANK_SIZE + i,
                ),
    {
        let mbc = crate::mmu::mbc::Mbc::new(rom_image);
        proof {
            assert forall|b: int, i: int|
                0 <= b < mbc.banks.len() && 0 <= i < BANK_SIZE implies mbc.banks[b][i] == rom_byte(
                rom_image@,
                b * BANK_SIZE + i,
            ) by {
                assert(mbc.bank_byte(b, i) == rom_byte(rom_image@, b * BANK_SIZE + i));
            }
        }
        RomBanks { banks: mbc.banks, current: 1 }
    }

    pub open spec fn spec_read(self, addr: u16) -> u8 {
        if addr < 0x4000 {
            self.banks[0][addr as int]
        } else {
            self.banks[self.current as int][addr - 0x4000]
        }
    }

    pub fn read(&self, addr: u16) -> (r: u8)
        requires
            self.wf(),
            addr < 0x8000,
        returns
            self.spec_read(addr),
    {
        let i = addr as usize;
        if i < 0x4000 {
            self.banks[0][i]
        } else {
            let off = i - 0x4000;
            self.banks[self.current][off]
        }
    }

    /// The ROM range holds no writable cells here; a write changes nothing.
    pub fn write(&mut self, addr: u16, val: u8)
        ensures
            *final(self) == *old(self),
    {
    }
}

} // verus!
