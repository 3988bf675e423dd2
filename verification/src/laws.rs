//! The laws this core guarantees, stated once over the models of the bus,
//! the register file and the processor, and proved from the same
//! specifications its functions carry.

use crate::cpu::{after_interrupt_service, CpuView};
use crate::cpu::flags_registers::{lemma_flags_byte_low_nibble, FlagsRegister};
use crate::cpu::registers::Registers;
use crate::cpu::utils::spec_i8_as_u16;
use crate::mmu::interrupt::Interrupt;
use crate::mmu::mbc::rom_byte;
use crate::mmu::{is_timer_reg, mmu_read, mmu_write, MemoryRegion, MmuView};
use vstd::prelude::*;

verus! {

/// Whether `addr` is backed by a plain cell of the flat array: no register,
/// no mirror, no cartridge and no pinned value stands in front of it.
pub open spec fn is_plain_ram(addr: u16) -> bool {
    let region = MemoryRegion::spec_from(addr);
    &&& !is_timer_reg(addr)
    &&& addr != 0xFF44
    &&& (region == MemoryRegion::Vram || region == MemoryRegion::ERam || region
        == MemoryRegion::Wram || region == MemoryRegion::Oam || region == MemoryRegion::Io
        || region == MemoryRegion::HRam)
}

/// Every address of 0xC000-0xDDFF reads the same cell as its echo 0x2000
/// above, and a write to either face of the mirror is one and the same
/// write.
pub proof fn lemma_echo_ram_mirror(m: MmuView, addr: u16, val: u8)
    requires
        0xC000 <= addr <= 0xDDFF,
    ensures
        mmu_read(m, addr) == mmu_read(m, (addr + 0x2000) as u16),
        mmu_write(m, addr, val) == mmu_write(m, (addr + 0x2000) as u16, val),
{
    assert(mmu_write(m, addr, val) =~~= mmu_write(m, (addr + 0x2000) as u16, val));
}

/// The unusable range 0xFEA0-0xFEFF reads 0xFF, and a write anywhere in it
/// changes nothing, so the whole range keeps reading 0xFF.
pub proof fn lemma_unusable_region(m: MmuView, addr: u16, val: u8)
    requires
        0xFEA0 <= addr <= 0xFEFF,
    ensures
        mmu_read(m, addr) == 0xFF,
        mmu_write(m, addr, val) == m,
{
}

/// At power-up, absent a boot ROM, address 0 reads the first ROM byte.
pub proof fn lemma_power_up_first_byte(m: MmuView, rom: Seq<u8>)
    requires
        rom.len() > 0,
        m.banks.len() > 0,
        !m.mode,
        m.banks[0][0] == rom_byte(rom, 0),
    ensures
        mmu_read(m, 0) == rom[0],
{
}

/// The flag register's low nibble is zero on every read of its packed form.
pub proof fn lemma_flags_low_nibble_always_zero(f: FlagsRegister)
    ensures
        f.spec_to_byte() & 0x0F == 0,
{
    lemma_flags_byte_low_nibble(f.zero, f.subtract, f.half_carry, f.carry);
}

/// Servicing an interrupt moves SP down by two, stores the old PC high byte
/// then low byte in the two cells above the new SP, lands PC on the fixed
/// vector, and drops the master enable.
pub proof fn lemma_interrupt_service(c: CpuView, interrupt: Interrupt)
    requires
        c.bus.wf(),
        is_plain_ram(c.regs.sp.wrapping_sub(1)),
        is_plain_ram(c.regs.sp.wrapping_sub(2)),
    ensures
        ({
            let s = after_interrupt_service(c, interrupt);
            &&& s.regs.sp == c.regs.sp.wrapping_sub(2)
            &&& mmu_read(s.bus, c.regs.sp.wrapping_sub(1)) == c.pc >> 8
            &&& mmu_read(s.bus, c.regs.sp.wrapping_sub(2)) == c.pc & 0xFF
            &&& s.pc == interrupt.spec_vector()
            &&& !s.ime
        }),
{
    broadcast use crate::bits::lemma_u16_and_bound;

    let a1 = c.regs.sp.wrapping_sub(1);
    let a2 = c.regs.sp.wrapping_sub(2);
    assert(a1 != a2);
    let v = c.pc;
    assert(v >> 8 <= 0xFF) by (bit_vector);
}

/// A write to any plain RAM cell — WRAM, HRAM, VRAM, OAM among them — reads
/// back as the written value.
pub proof fn lemma_write_read_round_trip(m: MmuView, addr: u16, val: u8)
    requires
        m.wf(),
        is_plain_ram(addr),
    ensures
        mmu_read(mmu_write(m, addr, val), addr) == val,
{
}

/// A 16-bit push followed by a pop yields the value back, with SP where it
/// started, whenever the two stack cells are plain RAM.
pub proof fn lemma_push_pop_round_trip(regs: Registers, m: MmuView, value: u16)
    requires
        m.wf(),
        is_plain_ram(regs.sp.wrapping_sub(1)),
        is_plain_ram(regs.sp.wrapping_sub(2)),
    ensures
        ({
            let pushed_bus = mmu_write(
                mmu_write(m, regs.sp.wrapping_sub(1), (value >> 8) as u8),
                regs.sp.wrapping_sub(2),
                (value & 0xFF) as u8,
            );
            let pushed_regs = Registers { sp: regs.sp.wrapping_sub(2), ..regs };
            &&& pushed_regs.spec_stack_top(pushed_bus) == value
            &&& pushed_regs.sp.wrapping_add(2) == regs.sp
        }),
{
    let a1 = regs.sp.wrapping_sub(1);
    let a2 = regs.sp.wrapping_sub(2);
    assert(a1 != a2);
    let v = value;
    assert((((v >> 8) as u8 as u16) << 8) | ((v & 0xFF) as u8 as u16) == v) by (bit_vector);
    assert(a2.wrapping_add(1) == a1);
}

/// AF round-trips through a push-and-pop modulo the flag register's low
/// nibble: storing a 16-bit value into AF and reading AF back yields the
/// value with its low nibble masked off.
pub proof fn lemma_af_round_trip(regs: Registers, value: u16)
    ensures
        regs.spec_with_af(value).spec_af() == value & 0xFFF0,
{
    crate::cpu::flags_registers::lemma_flags_byte_round_trip((value & 0xFF) as u8);
    let v = value;
    let a = ((v & 0xFF00) >> 8) as u8;
    let fb = ((v & 0xFF) as u8) & 0xF0;
    assert(((a as u16) << 8) | (fb as u16) == v & 0xFFF0) by (bit_vector)
        requires
            a == ((v & 0xFF00) >> 8) as u8,
            fb == ((v & 0xFF) as u8) & 0xF0,
    ;
}

/// The PPU's mode machine follows the frame timetable: after any dot-clock
/// advance the STAT mode is the one the timetable gives for the new dot
/// (2 -> 3 -> 0 across each visible scanline, 1 on scanlines 144-153), the
/// LY==LYC flag compares the timetable's line against LYC, and entering
/// VBlank leaves the VBlank interrupt requested.
pub proof fn lemma_ppu_mode_machine(p: crate::ppu::PpuView, bus: MmuView, dots: u32)
    requires
        p.dot < crate::ppu::lcd_status::FRAME_DOTS,
        dots <= crate::ppu::lcd_status::FRAME_DOTS,
    ensures
        ({
            let advanced = crate::ppu::spec_after_advance_dots(p, bus, dots);
            &&& advanced.0.lcd_status.ppu_mode == crate::ppu::lcd_status::spec_mode_for_dot(
                advanced.0.dot,
            )
            &&& advanced.0.lcd_status.lyc_equals_ly == (advanced.0.dot
                / crate::ppu::lcd_status::DOTS_PER_LINE == p.lyc)
            &&& (advanced.0.lcd_status.ppu_mode == crate::ppu::lcd_status::PpuMode::VBlank
                && p.lcd_status.ppu_mode != crate::ppu::lcd_status::PpuMode::VBlank
                ==> advanced.1.iflag & 0x01 == 0x01)
        }),
{
    let advanced = crate::ppu::spec_after_advance_dots(p, bus, dots);
    let before = mmu_write(bus, 0xFF41, advanced.0.lcd_status.spec_stat_byte()).iflag;
    assert((before | 0x01) & 0x01 == 0x01) by (bit_vector);
    assert(((before | 0x01) | 0x02) & 0x01 == 0x01) by (bit_vector);
}

/// A relative jump by `offset` followed by one by its two's-complement
/// negation lands PC four bytes past where it started — the two JR
/// instructions' own length. The one offset with no negation, -128, is left
/// out.
pub proof fn lemma_jr_round_trip(pc: u16, offset: u8)
    requires
        offset != 0x80,
    ensures
        ({
            let neg: u8 = if offset == 0 {
                0
            } else {
                (0x100 - offset as int) as u8
            };
            let there = pc.wrapping_add(2).wrapping_add(spec_i8_as_u16(offset));
            let back = there.wrapping_add(2).wrapping_add(spec_i8_as_u16(neg));
            back == pc.wrapping_add(4)
        }),
{
}

} // verus!
