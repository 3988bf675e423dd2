//! Shared decode helpers: the bit fields that select registers, pairs and
//! conditions inside an opcode, the immediate fetch and the HL post-step.

use crate::cpu::conditions::Cond;
use crate::cpu::registers::{R16Mem, Registers, R16, R8};
use crate::cpu::{imm16, with_regs, Cpu};
use vstd::prelude::*;

verus! {

pub const R16_MASK: u8 = 0b0011_0000;

pub const DEST_R8_MASK: u8 = 0b0011_1000;

pub const SOURCE_R8_MASK: u8 = 0b0000_0111;

pub const COND_MASK: u8 = 0b0001_1000;

/// The 16-bit immediate that follows the opcode at PC, low byte first.
pub fn get_imm16(cpu: &Cpu) -> (r: u16)
    requires
        cpu.wf(),
    returns
        imm16(cpu@),
{
    let lsb = cpu.bus.read_byte(cpu.pc.wrapping_add(1)) as u16;
    let msb = cpu.bus.read_byte(cpu.pc.wrapping_add(2)) as u16;
    let imm16 = (msb << 8u16) | lsb;
    imm16
}

/// The register pair encoded in bits 4-5 of the opcode.
pub open spec fn spec_r16_of(instruction: u8) -> R16 {
    R16::spec_from_index((instruction & R16_MASK) >> 4)
}

#[verifier::when_used_as_spec(spec_r16_of)]
pub fn convert_index_to_r16(instruction: u8) -> (r: R16)
    returns
        spec_r16_of(instruction),
{
    let r16_index = (instruction & R16_MASK) >> 4u8;
    R16::from_index(r16_index)
}

/// The memory operand encoded in bits 4-5 of the opcode.
pub open spec fn spec_r16_mem_of(instruction: u8) -> R16Mem {
    R16Mem::spec_from_index((instruction & R16_MASK) >> 4)
}

#[verifier::when_used_as_spec(spec_r16_mem_of)]
pub fn convert_index_to_r16_mem(instruction: u8) -> (r: R16Mem)
    returns
        spec_r16_mem_of(instruction),
{
    let r16_index = (instruction & R16_MASK) >> 4u8;
    R16Mem::from_index(r16_index)
}

/// The destination register encoded in bits 3-5 of the opcode.
pub open spec fn spec_dest_r8_of(instruction: u8) -> R8 {
    R8::spec_from_index((instruction & DEST_R8_MASK) >> 3)
}

#[verifier::when_used_as_spec(spec_dest_r8_of)]
pub fn convert_dest_index_to_r8(instruction: u8) -> (r: R8)
    returns
        spec_dest_r8_of(instruction),
{
    let r8_index: u8 = (instruction & DEST_R8_MASK) >> 3u8;
    R8::from_index(r8_index)
}

/// The source register encoded in bits 0-2 of the opcode.
pub open spec fn spec_source_r8_of(instruction: u8) -> R8 {
    R8::spec_from_index(instruction & SOURCE_R8_MASK)
}

#[verifier::when_used_as_spec(spec_source_r8_of)]
pub fn convert_source_index_to_r8(instruction: u8) -> (r: R8)
    returns
        spec_source_r8_of(instruction),
{
    let r8_index: u8 = instruction & SOURCE_R8_MASK;
    R8::from_index(r8_index)
}

/// The condition encoded in bits 3-4 of the opcode.
pub open spec fn spec_cond_of(instruction: u8) -> Cond {
    Cond::spec_from((instruction & COND_MASK) >> 3)
}

#[verifier::when_used_as_spec(spec_cond_of)]
pub fn convert_index_to_cond(instruction: u8) -> (r: Cond)
    returns
        spec_cond_of(instruction),
{
    let cond_index: u8 = (instruction & COND_MASK) >> 3u8;
    Cond::from(cond_index)
}

/// The signed interpretation of a fetched offset byte, as the 16-bit value
/// that addition moves the program counter by.
pub open spec fn spec_i8_as_u16(byte: u8) -> u16 {
    if byte < 0x80 {
        byte as u16
    } else {
        (0xFF00 + byte as int) as u16
    }
}

/// Sign-extend a fetched offset byte to the 16-bit address width.
pub fn i8_as_u16(byte: u8) -> (r: u16)
    returns
        spec_i8_as_u16(byte),
{
    if byte < 0x80 {
        byte as u16
    } else {
        0xFF00u16 + (byte as u16)
    }
}

/// The signed value a fetched byte stands for, in two's complement.
pub open spec fn spec_u8_to_i8(byte: u8) -> i8 {
    if byte < 0x80 {
        byte as i8
    } else {
        (byte - 0x100) as i8
    }
}

/// Reinterpret a fetched byte as a signed offset.
pub fn u8_to_i8(byte: u8) -> (r: i8)
    returns
        spec_u8_to_i8(byte),
{
    if byte < 0x80 {
        byte as i8
    } else {
        (byte as i16 - 0x100) as i8
    }
}

/// The register file after the post-step of an HL+ or HL- memory operand.
pub open spec fn spec_after_modify_hl(regs: Registers, r16_mem: R16Mem) -> Registers {
    if r16_mem == R16Mem::HLincrement {
        regs.spec_with_hl(regs.spec_hl().wrapping_add(1))
    } else if r16_mem == R16Mem::HLdecrement {
        regs.spec_with_hl(regs.spec_hl().wrapping_sub(1))
    } else {
        regs
    }
}

/// Apply the post-increment or post-decrement of HL that the HL+ and HL-
/// memory operands carry.
pub fn modify_hl(cpu: &mut Cpu, r16_mem: R16Mem)
    ensures
        final(cpu)@ == with_regs(old(cpu)@, spec_after_modify_hl(old(cpu)@.regs, r16_mem)),
        final(cpu).wf() == old(cpu).wf(),
{
    let value = cpu.registers.get_r16_value(R16::HL);

    if r16_mem == R16Mem::HLincrement {
        cpu.registers.set_r16_value(R16::HL, value.wrapping_add(1));
    }
    if r16_mem == R16Mem::HLdecrement {
        cpu.registers.set_r16_value(R16::HL, value.wrapping_sub(1));
    }
    proof {
        assert(cpu@ =~~= with_regs(old(cpu)@, spec_after_modify_hl(old(cpu)@.regs, r16_mem)));
    }
}

} // verus!
