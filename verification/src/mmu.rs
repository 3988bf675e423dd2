//! Memory-management unit: routes every 16-bit guest address to the cartridge,
//! plain RAM, the echo mirror, the timer registers or the interrupt controller.

pub mod interrupt;
pub mod mbc;
pub mod oam;
pub mod region;
pub mod rom_banks;
pub mod timers;

use crate::mmu::interrupt::{next_request_spec, Interrupt, InterruptController};
use crate::mmu::mbc::{mbc1_bank1_select, mbc1_high_bank, mbc1_low_bank, rom_byte, Mbc, BANK_SIZE};
use crate::mmu::timers::{timer_and_result, Timers, DIV_ADDR, TAC_ADDR, TIMA_ADDR, TMA_ADDR};
use vstd::prelude::*;

verus! {

/// The logical partition of the 16-bit address space.
#[derive(PartialEq, Eq, Structural, Debug)]
pub enum MemoryRegion {
    /// 0x0000-0x7FFF: cartridge ROM, read through the bank controller.
    Mbc,
    /// 0x8000-0x9FFF: video RAM.
    Vram,
    /// 0xA000-0xBFFF: external cartridge RAM.
    ERam,
    /// 0xC000-0xDFFF: work RAM.
    Wram,
    /// 0xE000-0xFDFF: echo of 0xC000-0xDDFF.
    Mram,
    /// 0xFE00-0xFE9F: sprite attribute table.
    Oam,
    /// 0xFEA0-0xFEFF: unusable, reads 0xFF and drops writes.
    Unusable,
    /// 0xFF0F: the interrupt flag register.
    If,
    /// 0xFF00-0xFF7F: the other I/O registers.
    Io,
    /// 0xFF80-0xFFFE: high RAM.
    HRam,
    /// 0xFFFF: the interrupt enable register.
    Ie,
}

impl MemoryRegion {
    /// The region that `addr` falls in.
    pub open spec fn spec_from(addr: u16) -> MemoryRegion {
        if addr <= 0x7FFF {
            MemoryRegion::Mbc
        } else if addr <= 0x9FFF {
            MemoryRegion::Vram
        } else if addr <= 0xBFFF {
            MemoryRegion::ERam
        } else if addr <= 0xDFFF {
            MemoryRegion::Wram
        } else if addr <= 0xFDFF {
            MemoryRegion::Mram
        } else if addr <= 0xFE9F {
            MemoryRegion::Oam
        } else if addr <= 0xFEFF {
            MemoryRegion::Unusable
        } else if addr == 0xFF0F {
            MemoryRegion::If
        } else if addr <= 0xFF7F {
            MemoryRegion::Io
        } else if addr <= 0xFFFE {
            MemoryRegion::HRam
        } else {
            MemoryRegion::Ie
        }
    }

    #[verifier::when_used_as_spec(spec_from)]
    pub fn from(addr: u16) -> (r: MemoryRegion)
        returns
            MemoryRegion::spec_from(addr),
    {
        if addr <= 0x7FFF {
            MemoryRegion::Mbc
        } else if addr <= 0x9FFF {
            MemoryRegion::Vram
        } else if addr <= 0xBFFF {
            MemoryRegion::ERam
        } else if addr <= 0xDFFF {
            MemoryRegion::Wram
        } else if addr <= 0xFDFF {
            MemoryRegion::Mram
        } else if addr <= 0xFE9F {
            MemoryRegion::Oam
        } else if addr <= 0xFEFF {
            MemoryRegion::Unusable
        } else if addr == 0xFF0F {
            MemoryRegion::If
        } else if addr <= 0xFF7F {
            MemoryRegion::Io
        } else if addr <= 0xFFFE {
            MemoryRegion::HRam
        } else {
            MemoryRegion::Ie
        }
    }
}

/// The mathematical model of the whole bus: the flat backing array, the ROM
/// banks with the cartridge controller's four registers, the interrupt
/// masks and the timer state.
#[verifier::ext_equal]
pub ghost struct MmuView {
    pub data: Seq<u8>,
    pub banks: Seq<Seq<u8>>,
    pub ramg: bool,
    pub bank1: u8,
    pub bank2: u8,
    pub mode: bool,
    pub ienable: u8,
    pub iflag: u8,
    pub timers: Timers,
}

impl MmuView {
    pub open spec fn wf(self) -> bool {
        &&& self.data.len() == 0x10000
        &&& self.banks.len() >= 2
        &&& forall|b: int| 0 <= b < self.banks.len() ==> (#[trigger] self.banks[b]).len() == 0x4000
        &&& 1 <= self.bank1 < 0x20
        &&& self.bank2 < 4
        &&& self.ienable & 0xE0 == 0
        &&& self.iflag & 0xE0 == 0
    }
}

/// Whether `addr` is one of the four timer registers.
pub open spec fn is_timer_reg(addr: u16) -> bool {
    DIV_ADDR <= addr <= TAC_ADDR
}

/// The value a read of `addr` observes. 0xFF44 (LY) is pinned to 0x90; the
/// ROM range reads through the bank controller; the echo range reads 0x2000
/// below itself; the unusable range reads 0xFF; IF, IE and the timer
/// registers read their subsystem's state.
pub open spec fn mmu_read(m: MmuView, addr: u16) -> u8 {
    if addr == 0xFF44 {
        0x90
    } else if is_timer_reg(addr) {
        m.timers.spec_read(addr)
    } else {
        let region = MemoryRegion::spec_from(addr);
        if region == MemoryRegion::Mbc {
            if addr < 0x4000 {
                m.banks[mbc1_low_bank(m.bank2, m.mode, m.banks.len() as int)][addr as int]
            } else {
                m.banks[mbc1_high_bank(m.bank1, m.bank2, m.banks.len() as int)][addr - 0x4000]
            }
        } else if region == MemoryRegion::Mram {
            m.data[addr - 0x2000]
        } else if region == MemoryRegion::Unusable {
            0xFF
        } else if region == MemoryRegion::If {
            m.iflag | 0xE0
        } else if region == MemoryRegion::Ie {
            m.ienable & 0x1F
        } else {
            m.data[addr as int]
        }
    }
}

/// The bus after a write of `val` to `addr`: a controller-register write in
/// the ROM range, a mirrored store in the echo range, a discarded store in
/// the unusable range, masked stores to IF and IE, the timer-register
/// semantics (a DIV write clears the divider), and a plain store elsewhere.
pub open spec fn mmu_write(m: MmuView, addr: u16, val: u8) -> MmuView {
    if is_timer_reg(addr) {
        let t = m.timers;
        MmuView {
            timers: if addr == DIV_ADDR {
                Timers { div: 0, ..t }
            } else if addr == TIMA_ADDR {
                Timers { tima: val, ..t }
            } else if addr == TMA_ADDR {
                Timers { tma: val, ..t }
            } else {
                Timers { tac: val, ..t }
            },
            ..m
        }
    } else {
        let region = MemoryRegion::spec_from(addr);
        if region == MemoryRegion::Mbc {
            if addr < 0x2000 {
                MmuView { ramg: val & 0x0F == 0x0A, ..m }
            } else if addr < 0x4000 {
                MmuView { bank1: mbc1_bank1_select(val), ..m }
            } else if addr < 0x6000 {
                MmuView { bank2: val & 0x03, ..m }
            } else {
                MmuView { mode: val & 0x01 == 1, ..m }
            }
        } else if region == MemoryRegion::Mram {
            MmuView { data: m.data.update(addr - 0x2000, val), ..m }
        } else if region == MemoryRegion::Unusable {
            m
        } else if region == MemoryRegion::If {
            MmuView { iflag: val & 0x1F, ..m }
        } else if region == MemoryRegion::Ie {
            MmuView { ienable: val & 0x1F, ..m }
        } else {
            MmuView { data: m.data.update(addr as int, val), ..m }
        }
    }
}

/// The bus after one timer step: the divider advances, a falling edge of the
/// selected-and-enabled bit increments TIMA, and a TIMA overflow reloads TMA
/// and raises the timer interrupt.
pub open spec fn mmu_tick_timers(m: MmuView) -> MmuView {
    let div = m.timers.div.wrapping_add(1);
    let and_now = timer_and_result(div, m.timers.tac);
    let falling = m.timers.previous_and_result && !and_now;
    if falling && m.timers.tima == 0xFF {
        MmuView {
            timers: Timers {
                div,
                tima: m.timers.tma,
                previous_and_result: and_now,
                ..m.timers
            },
            iflag: m.iflag | 0x04,
            ..m
        }
    } else {
        MmuView {
            timers: Timers {
                div,
                tima: if falling {
                    (m.timers.tima + 1) as u8
                } else {
                    m.timers.tima
                },
                previous_and_result: and_now,
                ..m.timers
            },
            ..m
        }
    }
}

/// A write leaves the invariant standing.
pub broadcast proof fn lemma_mmu_write_wf(m: MmuView, addr: u16, val: u8)
    requires
        m.wf(),
    ensures
        (#[trigger] mmu_write(m, addr, val)).wf(),
{
    broadcast use crate::bits::lemma_u8_and_bound;

    assert((val & 0x1F) & 0xE0 == 0) by (bit_vector);
}

/// The whole guest-visible address space: a flat backing array for the RAM
/// regions, the cartridge controller for the ROM range, and the timer and
/// interrupt registers behind their I/O addresses.
#[derive(Clone)]
pub struct Mmu {
    pub data: Vec<u8>,
    pub cart: Mbc,
    pub interrupts: InterruptController,
    pub timers: Timers,
}

impl View for Mmu {
    type V = MmuView;

    open spec fn view(&self) -> MmuView {
        MmuView {
            data: self.data@,
            banks: Seq::new(self.cart.banks.len() as nat, |b: int| self.cart.banks[b]@),
            ramg: self.cart.ramg,
            bank1: self.cart.bank1,
            bank2: self.cart.bank2,
            mode: self.cart.mode,
            ienable: self.interrupts.ienable,
            iflag: self.interrupts.iflag,
            timers: self.timers,
        }
    }
}

impl Mmu {
    pub open spec fn wf(self) -> bool {
        self@.wf() && self.cart.wf()
    }

    /// A fresh machine: zeroed RAM, the ROM image split into banks, no
    /// interrupt enabled or pending, timers at zero.
    pub fn new(rom_image: &Vec<u8>) -> (r: Mmu)
        requires
            rom_image.len() <= 0x80_0000,
        ensures
            r.wf(),
            forall|i: int| 0 <= i < 0x10000 ==> r@.data[i] == 0,
            !r@.ramg && r@.bank1 == 1 && r@.bank2 == 0 && !r@.mode,
            r@.banks.len() == if rom_image.len() <= 2 * BANK_SIZE {
                2int
            } else {
                (rom_image.len() + BANK_SIZE - 1) as int / BANK_SIZE as int
            },
            forall|b: int, i: int|
                0 <= b < r@.banks.len() && 0 <= i < 0x4000 ==> r@.banks[b][i] == rom_byte(
                    rom_image@,
                    b * BANK_SIZE + i,
                ),
            r@.ienable == 0 && r@.iflag == 0,
            r@.timers == (Timers { div: 0, tima: 0, tma: 0, tac: 0, previous_and_result: false }),
    {
        let mut data: Vec<u8> = Vec::new();
        let mut i: usize = 0;
        while i < 0x10000
            invariant
                i == data.len(),
                i <= 0x10000,
                forall|j: int| 0 <= j < i ==> data[j] == 0,
            decreases 0x10000 - i,
        {
            data.push(0);
            i += 1;
        }
        let cart = Mbc::new(rom_image);
        proof {
            assert(0u8 & 0xE0 == 0) by (bit_vector);
            assert forall|b: int, i: int|
                0 <= b < cart.banks.len() && 0 <= i < 0x4000 implies cart.banks[b]@[i] == rom_byte(
                rom_image@,
                b * BANK_SIZE + i,
            ) by {
                assert(cart.bank_byte(b, i) == rom_byte(rom_image@, b * BANK_SIZE + i));
            }
        }
        Mmu { data, cart, interrupts: InterruptController::new(), timers: Timers::default() }
    }

    pub fn read_byte(&self, addr: u16) -> (r: u8)
        requires
            self.wf(),
        returns
            mmu_read(self@, addr),
    {
        if addr == 0xFF44 {
            return 0x90;
        }
        if addr >= 0xFF04 && addr <= 0xFF07 {
            return self.timers.read_byte(addr);
        }

        match MemoryRegion::from(addr) {
            MemoryRegion::Mbc => self.cart.read(addr),
            MemoryRegion::Mram => {
                let mirror = addr - 0x2000;
                self.data[mirror as usize]
            },
            MemoryRegion::Unusable => 0xFF,
            MemoryRegion::If => self.interrupts.read_interrupt_flag(),
            MemoryRegion::Ie => self.interrupts.read_interrupt_enable(),
            _ => self.data[addr as usize],
        }
    }

    pub fn write_byte(&mut self, addr: u16, val: u8)
        requires
            old(self).wf(),
        ensures
            final(self).wf(),
            final(self)@ == mmu_write(old(self)@, addr, val),
    {
        proof {
            lemma_mmu_write_wf(self@, addr, val);
        }
        if addr >= 0xFF04 && addr <= 0xFF07 {
            self.timers.write_byte(addr, val);
            proof {
                assert(self@ =~~= mmu_write(old(self)@, addr, val));
            }
            return;
        }

        match MemoryRegion::from(addr) {
            MemoryRegion::Mbc => self.cart.write(addr, val),
            MemoryRegion::Mram => {
                let mirror = addr - 0x2000;
                self.data.set(mirror as usize, val);
            },
            MemoryRegion::Unusable => {},
            MemoryRegion::If => self.interrupts.write_interrupt_flag(val),
            MemoryRegion::Ie => self.interrupts.write_interrupt_enable(val),
            _ => self.data.set(addr as usize, val),
        }
        proof {
            assert(self@ =~~= mmu_write(old(self)@, addr, val));
        }
    }

    /// One timer step; a TIMA overflow raises the timer interrupt.
    pub fn tick_timers(&mut self)
        requires
            old(self).wf(),
        ensures
            final(self).wf(),
            final(self)@ == mmu_tick_timers(old(self)@),
    {
        let overflowed = self.timers.tick();
        if overflowed {
            self.interrupts.request(Interrupt::Timer);
        }
        proof {
            assert(self@ =~~= mmu_tick_timers(old(self)@));
        }
    }

    pub fn read_interrupt_flag(&self) -> (r: u8)
        returns
            self@.iflag | 0xE0,
    {
        self.interrupts.read_interrupt_flag()
    }

    pub fn read_interrupt_enable(&self) -> (r: u8)
        returns
            self@.ienable & 0x1F,
    {
        self.interrupts.read_interrupt_enable()
    }

    /// The highest-priority interrupt that is both enabled and pending.
    pub fn interrupts_next_request(&self) -> (r: Option<Interrupt>)
        returns
            next_request_spec(self@.ienable & self@.iflag),
    {
        self.interrupts.next_request()
    }

    /// Raise `interrupt`: set its bit in IF.
    pub fn request_interrupt(&mut self, interrupt: Interrupt)
        requires
            old(self).wf(),
        ensures
            final(self).wf(),
            final(self)@ == (MmuView {
                iflag: old(self)@.iflag | interrupt.spec_mask(),
                ..old(self)@
            }),
    {
        self.interrupts.request(interrupt);
        proof {
            assert(self@ =~~= MmuView {
                iflag: old(self)@.iflag | interrupt.spec_mask(),
                ..old(self)@
            });
        }
    }

    pub fn interrupts_clear_request(&mut self, interrupt: Interrupt)
        requires
            old(self).wf(),
        ensures
            final(self).wf(),
            final(self)@ == (MmuView {
                iflag: old(self)@.iflag & !interrupt.spec_mask(),
                ..old(self)@
            }),
    {
        self.interrupts.clear_request(interrupt);
        proof {
            let m = old(self)@.iflag;
            let k = interrupt.spec_mask();
            assert(m & 0xE0 == 0 ==> (m & !k) & 0xE0 == 0) by (bit_vector);
            assert(self@ =~~= MmuView { iflag: old(self)@.iflag & !interrupt.spec_mask(), ..old(self)@ });
        }
    }
}

impl Default for Mmu {
    fn default() -> (r: Mmu)
        ensures
            r.wf(),
            forall|i: int| 0 <= i < 0x10000 ==> r@.data[i] == 0,
            !r@.ramg && r@.bank1 == 1 && r@.bank2 == 0 && !r@.mode,
            r@.banks.len() == 2,
            forall|b: int, i: int| 0 <= b < 2 && 0 <= i < 0x4000 ==> r@.banks[b][i] == 0,
            r@.ienable == 0 && r@.iflag == 0,
            r@.timers == (Timers { div: 0, tima: 0, tma: 0, tac: 0, previous_and_result: false }),
    {
        let empty: Vec<u8> = Vec::new();
        Mmu::new(&empty)
    }
}

} // verus!
