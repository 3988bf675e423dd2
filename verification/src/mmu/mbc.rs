//! Cartridge bank controller (MBC1): the immutable ROM image split into
//! 16 KiB banks, and the four controller registers a guest writes through
//! the ROM range — RAMG (0x0000-0x1FFF), BANK1 (0x2000-0x3FFF), BANK2
//! (0x4000-0x5FFF) and MODE (0x6000-0x7FFF). Writing 0 to BANK1 selects
//! bank 1, and a selection past the available banks wraps modulo the bank
//! count.

use vstd::prelude::*;

verus! {

pub const BANK_SIZE: usize = 0x4000;

/// The ROM byte at `idx`, reading 0 past the end of the image.
pub open spec fn rom_byte(rom: Seq<u8>, idx: int) -> u8 {
    if 0 <= idx < rom.len() {
        rom[idx]
    } else {
        0
    }
}

/// The BANK1 value a write of `val` stores: the low five bits, 0 promoted
/// to 1.
pub open spec fn mbc1_bank1_select(val: u8) -> u8 {
    if val & 0x1F == 0 {
        1u8
    } else {
        val & 0x1F
    }
}

/// The physical bank mapped at 0x0000-0x3FFF: bank 0, except that MODE 1
/// maps the bank BANK2 names (shifted into the high selection bits),
/// wrapped modulo the bank count.
pub open spec fn mbc1_low_bank(bank2: u8, mode: bool, nbanks: int) -> int
    recommends
        nbanks >= 2,
{
    if mode {
        (bank2 as int * 32) % nbanks
    } else {
        0int
    }
}

/// The physical bank mapped at 0x4000-0x7FFF: BANK2 and BANK1 joined,
/// wrapped modulo the bank count, and a wrapped result of 0 promoted to 1 —
/// the switchable slot never resolves to physical bank 0.
pub open spec fn mbc1_high_bank(bank1: u8, bank2: u8, nbanks: int) -> int
    recommends
        nbanks >= 2,
{
    let wrapped = (bank2 as int * 32 + bank1 as int) % nbanks;
    if wrapped == 0 {
        1int
    } else {
        wrapped
    }
}

#[derive(Clone)]
pub struct Mbc {
    pub banks: Vec<Vec<u8>>,
    /// The RAM-enable latch: on only after a write with low nibble 0xA.
    pub ramg: bool,
    /// The 5-bit bank register; never 0.
    pub bank1: u8,
    /// The 2-bit bank register.
    pub bank2: u8,
    /// The 1-bit banking mode.
    pub mode: bool,
}

impl Mbc {
    /// The controller's invariant: at least two 16 KiB banks, BANK1 in its
    /// five bits and never 0, BANK2 in its two bits.
    pub open spec fn wf(self) -> bool {
        &&& self.banks.len() >= 2
        &&& forall|b: int|
            0 <= b < self.banks.len() ==> (#[trigger] self.banks[b]).len() == BANK_SIZE
        &&& 1 <= self.bank1 < 0x20
        &&& self.bank2 < 4
    }

    /// The byte at offset `i` of bank `b`.
    pub open spec fn bank_byte(self, b: int, i: int) -> u8 {
        self.banks[b][i]
    }

    /// Split the ROM image into 16 KiB banks, zero-padding the last bank and
    /// topping up to two banks; the registers start at their power-up
    /// values.
    pub fn new(rom_image: &Vec<u8>) -> (r: Mbc)
        requires
            rom_image.len() <= 0x80_0000,
        ensures
            r.wf(),
            !r.ramg && r.bank1 == 1 && r.bank2 == 0 && !r.mode,
            r.banks.len() == if rom_image.len() <= 2 * BANK_SIZE {
                2int
            } else {
                (rom_image.len() + BANK_SIZE - 1) as int / BANK_SIZE as int
            },
            forall|b: int, i: int|
                0 <= b < r.banks.len() && 0 <= i < BANK_SIZE ==> r.bank_byte(b, i) == rom_byte(
                    rom_image@,
                    b * BANK_SIZE + i,
                ),
    {
        let mut banks: Vec<Vec<u8>> = Vec::new();
        let mut offset: usize = 0;

        while offset < rom_image.len()
            invariant
                offset == banks.len() * BANK_SIZE,
                offset < rom_image.len() + BANK_SIZE,
                rom_image.len() <= 0x80_0000,
                forall|b: int|
                    0 <= b < banks.len() ==> (#[trigger] banks[b]).len() == BANK_SIZE,
                forall|b: int, i: int|
                    0 <= b < banks.len() && 0 <= i < BANK_SIZE ==> banks[b][i] == rom_byte(
                        rom_image@,
                        b * BANK_SIZE + i,
                    ),
            decreases rom_image.len() + BANK_SIZE - offset,
        {
            let mut bank: Vec<u8> = Vec::new();
            let mut i: usize = 0;
            while i < BANK_SIZE
                invariant
                    i == bank.len(),
                    i <= BANK_SIZE,
                    offset <= 0x80_0000,
                    forall|j: int|
                        0 <= j < i ==> bank[j] == rom_byte(rom_image@, offset + j),
                decreases BANK_SIZE - i,
            {
                if offset + i < rom_image.len() {
                    bank.push(rom_image[offset + i]);
                } else {
                    bank.push(0);
                }
                i += 1;
            }
            banks.push(bank);
            offset += BANK_SIZE;
        }

        while banks.len() < 2
            invariant
                forall|b: int|
                    0 <= b < banks.len() ==> (#[trigger] banks[b]).len() == BANK_SIZE,
                forall|b: int, i: int|
                    0 <= b < banks.len() && 0 <= i < BANK_SIZE ==> banks[b][i] == rom_byte(
                        rom_image@,
                        b * BANK_SIZE + i,
                    ),
                banks.len() * BANK_SIZE >= rom_image.len(),
                banks.len() <= 2 || banks.len() * BANK_SIZE < rom_image.len() + BANK_SIZE,
            decreases 2 - banks.len(),
        {
            let mut bank: Vec<u8> = Vec::new();
            let mut i: usize = 0;
            while i < BANK_SIZE
                invariant
                    i == bank.len(),
                    i <= BANK_SIZE,
                    forall|j: int| 0 <= j < i ==> bank[j] == 0,
                decreases BANK_SIZE - i,
            {
                bank.push(0);
                i += 1;
            }
            proof {
                assert(rom_image@.len() <= banks.len() * BANK_SIZE);
            }
            banks.push(bank);
        }

        proof {
            if rom_image@.len() > 2 * BANK_SIZE {
                let n = banks.len() as int;
                let l = rom_image@.len() as int;
                assert(n == (l + 0x4000 - 1) / 0x4000) by (nonlinear_arith)
                    requires
                        n * 0x4000 >= l,
                        n * 0x4000 < l + 0x4000,
                        l > 2 * 0x4000,
                ;
            }
        }
        Mbc { banks, ramg: false, bank1: 1, bank2: 0, mode: false }
    }

    /// The value a read of the ROM range observes, through the current bank
    /// mapping.
    pub open spec fn spec_read(self, addr: u16) -> u8 {
        if addr < 0x4000 {
            self.bank_byte(mbc1_low_bank(self.bank2, self.mode, self.banks.len() as int), addr as int)
        } else {
            self.bank_byte(
                mbc1_high_bank(self.bank1, self.bank2, self.banks.len() as int),
                addr - 0x4000,
            )
        }
    }

    pub fn read(&self, addr: u16) -> (r: u8)
        requires
            self.wf(),
            addr < 0x8000,
        returns
            self.spec_read(addr),
    {
        let nbanks = self.banks.len();
        let i = addr as usize;
        if i < 0x4000 {
            let low = if self.mode {
                (self.bank2 as usize * 32) % nbanks
            } else {
                0
            };
            self.banks[low][i]
        } else {
            let mut high = (self.bank2 as usize * 32 + self.bank1 as usize) % nbanks;
            if high == 0 {
                high = 1;
            }
            let off = i - 0x4000;
            self.banks[high][off]
        }
    }

    /// A write in the ROM range is a controller-register write and never
    /// touches the ROM image: RAMG, BANK1 (0 promoted to 1), BANK2 or MODE,
    /// by address range.
    pub fn write(&mut self, addr: u16, val: u8)
        requires
            old(self).wf(),
            addr < 0x8000,
        ensures
            final(self).wf(),
            final(self).banks == old(self).banks,
            final(self).ramg == if addr < 0x2000 {
                val & 0x0F == 0x0A
            } else {
                old(self).ramg
            },
            final(self).bank1 == if 0x2000 <= addr < 0x4000 {
                mbc1_bank1_select(val)
            } else {
                old(self).bank1
            },
            final(self).bank2 == if 0x4000 <= addr < 0x6000 {
                val & 0x03
            } else {
                old(self).bank2
            },
            final(self).mode == if 0x6000 <= addr {
                val & 0x01 == 1
            } else {
                old(self).mode
            },
    {
        broadcast use crate::bits::lemma_u8_and_bound;

        if addr < 0x2000 {
            self.ramg = val & 0x0F == 0x0A;
        } else if addr < 0x4000 {
            let mut bank = val & 0x1F;
            if bank == 0 {
                bank = 1;
            }
            self.bank1 = bank;
        } else if addr < 0x6000 {
            self.bank2 = val & 0x03;
        } else {
            self.mode = val & 0x01 == 1;
        }
    }

    pub fn bank_count(&self) -> (r: usize)
        returns
            self.banks.len(),
    {
        self.banks.len()
    }
}

} // verus!
