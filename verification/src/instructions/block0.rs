//! Block-00 instructions for the reduced processor: NOP, the 16-bit loads
//! between pairs, the accumulator loads through a pair, and 16-bit
//! increment and decrement. The low nibble of the opcode selects the form.

use crate::cpu::cpu::CPU;
use crate::registers::{R16, R8};
use vstd::prelude::*;

verus! {

pub const R16_MASK: u8 = 0b0011_0000;

/// Whether the decoder resolves `i` to one of the wired-up instructions.
pub open spec fn spec_block0_supported(i: u8) -> bool {
    i == 0 || i & 0x0F == 1 || i & 0x0F == 2 || i & 0x0F == 0x0A || i & 0x0F == 3 || i & 0x0F
        == 0x0B
}

/// The pair operand in bits 4-5.
pub open spec fn spec_r16_of(i: u8) -> R16 {
    R16::spec_from_index((i & R16_MASK) >> 4)
}

/// The 16-bit immediate after the opcode, low byte first.
pub open spec fn spec_imm16(c: CPU) -> u16 {
    ((c.bus.spec_read(c.pc.wrapping_add(2)) as u16) << 8) | (c.bus.spec_read(
        c.pc.wrapping_add(1),
    ) as u16)
}

/// The program counter after the instruction: three bytes for the immediate
/// load, one byte otherwise; an unsupported byte leaves it alone.
pub open spec fn spec_pc_after_block0(c: CPU, i: u8) -> u16 {
    if i == 0 {
        c.pc.wrapping_add(1)
    } else if i & 0x0F == 1 {
        c.pc.wrapping_add(3)
    } else if i & 0x0F == 2 || i & 0x0F == 0x0A || i & 0x0F == 3 || i & 0x0F == 0x0B {
        c.pc.wrapping_add(1)
    } else {
        c.pc
    }
}

/// How the processor before and after relate for a block-00 byte: the
/// supported forms update one pair, the accumulator or one memory cell, and
/// an unsupported byte changes nothing.
pub open spec fn block0_effect(pre: CPU, post: CPU, i: u8) -> bool {
    &&& post.pc == spec_pc_after_block0(pre, i)
    &&& if i == 0 {
        post.registers == pre.registers && post.bus == pre.bus
    } else if i & 0x0F == 1 {
        post.registers == pre.registers.spec_with_r16(spec_r16_of(i), spec_imm16(pre))
            && post.bus == pre.bus
    } else if i & 0x0F == 2 {
        post.registers == pre.registers && post.bus.data@ == pre.bus.spec_data_after(
            pre.registers.spec_r16(spec_r16_of(i)),
            pre.registers.a,
        ) && post.bus.rom_banks == pre.bus.rom_banks && post.bus.current_rom_bank
            == pre.bus.current_rom_bank
    } else if i & 0x0F == 0x0A {
        post.registers == pre.registers.spec_with_r8(
            R8::A,
            pre.bus.spec_read(pre.registers.spec_r16(spec_r16_of(i))),
        ) && post.bus == pre.bus
    } else if i & 0x0F == 3 {
        post.registers == pre.registers.spec_with_r16(
            spec_r16_of(i),
            pre.registers.spec_r16(spec_r16_of(i)).wrapping_add(1),
        ) && post.bus == pre.bus
    } else if i & 0x0F == 0x0B {
        post.registers == pre.registers.spec_with_r16(
            spec_r16_of(i),
            pre.registers.spec_r16(spec_r16_of(i)).wrapping_sub(1),
        ) && post.bus == pre.bus
    } else {
        post == pre
    }
}

/// Decode and run a block-00 byte; `None` reports one the decoder cannot
/// resolve to a single wired-up instruction, and leaves the state alone.
pub fn match_instruction_block0(cpu: &mut CPU, instruction: u8) -> (r: Option<()>)
    requires
        old(cpu).wf(),
    ensures
        final(cpu).wf(),
        final(cpu).pc == spec_pc_after_block0(*old(cpu), instruction),
        r is Some <==> spec_block0_supported(instruction),
        block0_effect(*old(cpu), *final(cpu), instruction),
{
    if instruction == 0 {
        cpu.pc = cpu.pc.wrapping_add(1);
        Option::Some(())
    } else if instruction & 0x0F == 1 {
        load_r16_imm16(cpu, instruction);
        Option::Some(())
    } else if instruction & 0x0F == 2 {
        load_r16mem_a(cpu, instruction);
        Option::Some(())
    } else if instruction & 0x0F == 0x0A {
        load_a_r16mem(cpu, instruction);
        Option::Some(())
    } else if instruction & 0x0F == 3 {
        inc_r16(cpu, instruction);
        Option::Some(())
    } else if instruction & 0x0F == 0x0B {
        dec_r16(cpu, instruction);
        Option::Some(())
    } else {
        Option::None
    }
}

fn convert_index_to_r16(instruction: u8) -> (r: R16)
    returns
        spec_r16_of(instruction),
{
    let r16_index = (instruction & R16_MASK) >> 4u8;
    R16::from_index(r16_index)
}

fn load_r16_imm16(cpu: &mut CPU, instruction: u8)
    requires
        old(cpu).wf(),
    ensures
        final(cpu).wf(),
        final(cpu).registers == old(cpu).registers.spec_with_r16(
            spec_r16_of(instruction),
            spec_imm16(*old(cpu)),
        ),
        final(cpu).bus == old(cpu).bus,
        final(cpu).pc == old(cpu).pc.wrapping_add(3),
{
    let lsb = cpu.bus.read_byte(cpu.pc.wrapping_add(1)) as u16;
    let msb = cpu.bus.read_byte(cpu.pc.wrapping_add(2)) as u16;
    let imm16 = (msb << 8u16) | lsb;
    let r16 = convert_index_to_r16(instruction);

    cpu.registers.set_r16_value(r16, imm16);
    cpu.pc = cpu.pc.wrapping_add(3);
}

fn load_r16mem_a(cpu: &mut CPU, instruction: u8)
    requires
        old(cpu).wf(),
    ensures
        final(cpu).wf(),
        final(cpu).registers == old(cpu).registers,
        final(cpu).bus.data@ == old(cpu).bus.spec_data_after(
            old(cpu).registers.spec_r16(spec_r16_of(instruction)),
            old(cpu).registers.a,
        ),
        final(cpu).bus.rom_banks == old(cpu).bus.rom_banks,
        final(cpu).bus.current_rom_bank == old(cpu).bus.current_rom_bank,
        final(cpu).pc == old(cpu).pc.wrapping_add(1),
{
    let r16 = convert_index_to_r16(instruction);
    let a_value = cpu.registers.get_a();

    cpu.registers.set_r16_mem_value(&mut cpu.bus, r16, a_value);
    cpu.pc = cpu.pc.wrapping_add(1);
}

fn load_a_r16mem(cpu: &mut CPU, instruction: u8)
    requires
        old(cpu).wf(),
    ensures
        final(cpu).wf(),
        final(cpu).registers == old(cpu).registers.spec_with_r8(
            R8::A,
            old(cpu).bus.spec_read(old(cpu).registers.spec_r16(spec_r16_of(instruction))),
        ),
        final(cpu).bus == old(cpu).bus,
        final(cpu).pc == old(cpu).pc.wrapping_add(1),
{
    let r16 = convert_index_to_r16(instruction);
    let value = cpu.registers.get_r16_mem_value(&cpu.bus, r16);

    cpu.registers.set_r8_value(R8::A, value);
    cpu.pc = cpu.pc.wrapping_add(1);
}

fn inc_r16(cpu: &mut CPU, instruction: u8)
    requires
        old(cpu).wf(),
    ensures
        final(cpu).wf(),
        final(cpu).registers == old(cpu).registers.spec_with_r16(
            spec_r16_of(instruction),
            old(cpu).registers.spec_r16(spec_r16_of(instruction)).wrapping_add(1),
        ),
        final(cpu).bus == old(cpu).bus,
        final(cpu).pc == old(cpu).pc.wrapping_add(1),
{
    let r16 = convert_index_to_r16(instruction);
    let value = cpu.registers.get_r16_value(r16);

    cpu.registers.set_r16_value(r16, value.wrapping_add(1));
    cpu.pc = cpu.pc.wrapping_add(1);
}

fn dec_r16(cpu: &mut CPU, instruction: u8)
    requires
        old(cpu).wf(),
    ensures
        final(cpu).wf(),
        final(cpu).registers == old(cpu).registers.spec_with_r16(
            spec_r16_of(instruction),
            old(cpu).registers.spec_r16(spec_r16_of(instruction)).wrapping_sub(1),
        ),
        final(cpu).bus == old(cpu).bus,
        final(cpu).pc == old(cpu).pc.wrapping_add(1),
{
    let r16 = convert_index_to_r16(instruction);
    let value = cpu.registers.get_r16_value(r16);

    cpu.registers.set_r16_value(r16, value.wrapping_sub(1));
    cpu.pc = cpu.pc.wrapping_add(1);
}

} // verus!
