//! The CB-prefixed opcode block: rotates, shifts, SWAP, and the BIT, RES and
//! SET bit operations on a register operand. Every one of these instructions
//! is two bytes long, the prefix included.

use crate::cpu::ops8::{
    after_op_rotate_left, after_op_rotate_right, after_op_sla, after_op_sr, after_op_swap,
};
use crate::cpu::registers::R8;
use crate::cpu::utils::spec_source_r8_of;
use crate::cpu::{cpu_r8, cpu_with_r8, utils, with_pc, with_regs, Cpu, CpuView};
use vstd::prelude::*;

verus! {

pub const B3_MASK: u8 = 0b0011_1000;

/// `RLC r8` / `RL r8`: on the operand itself, memory included, with Z from
/// the result for every target.
pub open spec fn after_rotate_left_r8(c: CpuView, instruction: u8, through_carry: bool) -> CpuView {
    let r8 = spec_source_r8_of(instruction);
    with_pc(after_op_rotate_left(c, r8, through_carry, false), c.pc.wrapping_add(2))
}

/// `RRC r8` / `RR r8`.
pub open spec fn after_rotate_right_r8(c: CpuView, instruction: u8, circular: bool) -> CpuView {
    let r8 = spec_source_r8_of(instruction);
    with_pc(after_op_rotate_right(c, r8, !circular, false), c.pc.wrapping_add(2))
}

/// `SLA r8`.
pub open spec fn after_sla_r8(c: CpuView, instruction: u8) -> CpuView {
    let r8 = spec_source_r8_of(instruction);
    with_pc(after_op_sla(c, r8), c.pc.wrapping_add(2))
}

/// `SRA r8` / `SRL r8`.
pub open spec fn after_sr_r8(c: CpuView, instruction: u8, arithmetic: bool) -> CpuView {
    let r8 = spec_source_r8_of(instruction);
    with_pc(after_op_sr(c, r8, arithmetic), c.pc.wrapping_add(2))
}

/// `SWAP r8`.
pub open spec fn after_swap_r8(c: CpuView, instruction: u8) -> CpuView {
    let r8 = spec_source_r8_of(instruction);
    with_pc(after_op_swap(c, r8), c.pc.wrapping_add(2))
}

/// `BIT b3, r8`: Z reports the tested bit clear; N clears, H sets, C and the
/// operand are untouched.
pub open spec fn after_bit_b3_r8(c: CpuView, instruction: u8) -> CpuView {
    let value = cpu_r8(c, spec_source_r8_of(instruction));
    let b3 = (instruction & B3_MASK) >> 3;
    let regs = c.regs.spec_with_flags(value & (1u8 << b3) == 0, false, true, c.regs.f.carry);
    with_pc(with_regs(c, regs), c.pc.wrapping_add(2))
}

/// `RES b3, r8`: clear the selected bit; no flags.
pub open spec fn after_res_b3_r8(c: CpuView, instruction: u8) -> CpuView {
    let r8 = spec_source_r8_of(instruction);
    let value = cpu_r8(c, r8);
    let b3 = (instruction & B3_MASK) >> 3;
    with_pc(cpu_with_r8(c, r8, value & !(1u8 << b3)), c.pc.wrapping_add(2))
}

/// `SET b3, r8`: set the selected bit; no flags.
pub open spec fn after_set_b3_r8(c: CpuView, instruction: u8) -> CpuView {
    let r8 = spec_source_r8_of(instruction);
    let value = cpu_r8(c, r8);
    let b3 = (instruction & B3_MASK) >> 3;
    with_pc(cpu_with_r8(c, r8, value | (1u8 << b3)), c.pc.wrapping_add(2))
}

/// The effect of a CB-prefixed opcode: the top two bits pick BIT/RES/SET,
/// else bits 3-5 pick the rotate/shift family.
pub open spec fn after_block_prefix(c: CpuView, instruction: u8) -> CpuView {
    let top = instruction & 0xC0;
    if top == 0x40 {
        after_bit_b3_r8(c, instruction)
    } else if top == 0x80 {
        after_res_b3_r8(c, instruction)
    } else if top == 0xC0 {
        after_set_b3_r8(c, instruction)
    } else {
        let op = instruction & 0x38;
        if op == 0x00 {
            after_rotate_left_r8(c, instruction, false)
        } else if op == 0x08 {
            after_rotate_right_r8(c, instruction, true)
        } else if op == 0x10 {
            after_rotate_left_r8(c, instruction, true)
        } else if op == 0x18 {
            after_rotate_right_r8(c, instruction, false)
        } else if op == 0x20 {
            after_sla_r8(c, instruction)
        } else if op == 0x28 {
            after_sr_r8(c, instruction, true)
        } else if op == 0x30 {
            after_swap_r8(c, instruction)
        } else {
            after_sr_r8(c, instruction, false)
        }
    }
}

pub fn execute_instruction_block_prefix(cpu: &mut Cpu, instruction: u8)
    requires
        old(cpu).wf(),
    ensures
        final(cpu).wf(),
        final(cpu)@ == after_block_prefix(old(cpu)@, instruction),
{
    broadcast use crate::bits::lemma_u8_and_bound;

    let top = instruction & 0xC0;
    if top == 0x40 {
        bit_b3_r8(cpu, instruction);
    } else if top == 0x80 {
        res_b3_r8(cpu, instruction);
    } else if top == 0xC0 {
        set_b3_r8(cpu, instruction);
    } else {
        let op = instruction & 0x38;
        if op == 0x00 {
            rlc_r8(cpu, instruction);
        } else if op == 0x08 {
            rrc_r8(cpu, instruction);
        } else if op == 0x10 {
            rl(cpu, instruction);
        } else if op == 0x18 {
            rr(cpu, instruction);
        } else if op == 0x20 {
            sla_r8(cpu, instruction);
        } else if op == 0x28 {
            sr_r8(cpu, instruction, true);
        } else if op == 0x30 {
            swap_r8(cpu, instruction);
        } else {
            proof {
                let i = instruction;
                assert((i & 0x38 == 0x00) || (i & 0x38 == 0x08) || (i & 0x38 == 0x10) || (i & 0x38
                    == 0x18) || (i & 0x38 == 0x20) || (i & 0x38 == 0x28) || (i & 0x38 == 0x30) || (i
                    & 0x38 == 0x38)) by (bit_vector);
            }
            sr_r8(cpu, instruction, false);
        }
    }
    proof {
        let i = instruction;
        assert((i & 0xC0 == 0x00) || (i & 0xC0 == 0x40) || (i & 0xC0 == 0x80) || (i & 0xC0 == 0xC0))
            by (bit_vector);
    }
}

/// Rotate the operand left circularly (RLC), memory operand included.
pub fn rlc_r8(cpu: &mut Cpu, instruction: u8)
    requires
        old(cpu).wf(),
    ensures
        final(cpu).wf(),
        final(cpu)@ == after_rotate_left_r8(old(cpu)@, instruction, false),
{
    let r8: R8 = utils::convert_source_index_to_r8(instruction);
    cpu.op_rotate_left(r8, false, false);
    cpu.pc = cpu.pc.wrapping_add(2);
    proof {
        assert(cpu@ =~~= after_rotate_left_r8(old(cpu)@, instruction, false));
    }
}

/// Rotate the operand right circularly (RRC).
pub fn rrc_r8(cpu: &mut Cpu, instruction: u8)
    requires
        old(cpu).wf(),
    ensures
        final(cpu).wf(),
        final(cpu)@ == after_rotate_right_r8(old(cpu)@, instruction, true),
{
    let r8: R8 = utils::convert_source_index_to_r8(instruction);
    cpu.op_rotate_right(r8, false, false);
    cpu.pc = cpu.pc.wrapping_add(2);
    proof {
        assert(cpu@ =~~= after_rotate_right_r8(old(cpu)@, instruction, true));
    }
}

/// Rotate the operand left through the carry flag (RL).
pub fn rl(cpu: &mut Cpu, instruction: u8)
    requires
        old(cpu).wf(),
    ensures
        final(cpu).wf(),
        final(cpu)@ == after_rotate_left_r8(old(cpu)@, instruction, true),
{
    let r8: R8 = utils::convert_source_index_to_r8(instruction);
    cpu.op_rotate_left(r8, true, false);
    cpu.pc = cpu.pc.wrapping_add(2);
    proof {
        assert(cpu@ =~~= after_rotate_left_r8(old(cpu)@, instruction, true));
    }
}

/// Rotate the operand right through the carry flag (RR).
pub fn rr(cpu: &mut Cpu, instruction: u8)
    requires
        old(cpu).wf(),
    ensures
        final(cpu).wf(),
        final(cpu)@ == after_rotate_right_r8(old(cpu)@, instruction, false),
{
    let r8: R8 = utils::convert_source_index_to_r8(instruction);
    cpu.op_rotate_right(r8, true, false);
    cpu.pc = cpu.pc.wrapping_add(2);
    proof {
        assert(cpu@ =~~= after_rotate_right_r8(old(cpu)@, instruction, false));
    }
}

pub fn sla_r8(cpu: &mut Cpu, instruction: u8)
    requires
        old(cpu).wf(),
    ensures
        final(cpu).wf(),
        final(cpu)@ == after_sla_r8(old(cpu)@, instruction),
{
    let r8: R8 = utils::convert_source_index_to_r8(instruction);
    cpu.op_sla(r8);
    cpu.pc = cpu.pc.wrapping_add(2);
    proof {
        assert(cpu@ =~~= after_sla_r8(old(cpu)@, instruction));
    }
}

/// Shift the operand right: arithmetically (SRA) or logically (SRL).
pub fn sr_r8(cpu: &mut Cpu, instruction: u8, arithmetic: bool)
    requires
        old(cpu).wf(),
    ensures
        final(cpu).wf(),
        final(cpu)@ == after_sr_r8(old(cpu)@, instruction, arithmetic),
{
    let r8: R8 = utils::convert_source_index_to_r8(instruction);
    cpu.op_sr(r8, arithmetic);
    cpu.pc = cpu.pc.wrapping_add(2);
    proof {
        assert(cpu@ =~~= after_sr_r8(old(cpu)@, instruction, arithmetic));
    }
}

pub fn swap_r8(cpu: &mut Cpu, instruction: u8)
    requires
        old(cpu).wf(),
    ensures
        final(cpu).wf(),
        final(cpu)@ == after_swap_r8(old(cpu)@, instruction),
{
    let r8: R8 = utils::convert_source_index_to_r8(instruction);
    cpu.op_swap(r8);
    cpu.pc = cpu.pc.wrapping_add(2);
    proof {
        assert(cpu@ =~~= after_swap_r8(old(cpu)@, instruction));
    }
}

pub fn bit_b3_r8(cpu: &mut Cpu, instruction: u8)
    requires
        old(cpu).wf(),
    ensures
        final(cpu).wf(),
        final(cpu)@ == after_bit_b3_r8(old(cpu)@, instruction),
{
    broadcast use crate::bits::lemma_u8_bit_field;

    let r8: R8 = utils::convert_source_index_to_r8(instruction);
    let b3 = (instruction & B3_MASK) >> 3u8;
    let r8_value = cpu.get_r8_value(r8);

    cpu.registers.set_zero_flag((r8_value & (1u8 << b3)) == 0);
    cpu.registers.set_subtract_flag(false);
    cpu.registers.set_half_carry_flag(true);

    cpu.pc = cpu.pc.wrapping_add(2);
    proof {
        assert(cpu@ =~~= after_bit_b3_r8(old(cpu)@, instruction));
    }
}

pub fn res_b3_r8(cpu: &mut Cpu, instruction: u8)
    requires
        old(cpu).wf(),
    ensures
        final(cpu).wf(),
        final(cpu)@ == after_res_b3_r8(old(cpu)@, instruction),
{
    broadcast use crate::bits::lemma_u8_bit_field;

    let r8: R8 = utils::convert_source_index_to_r8(instruction);
    let b3 = (instruction & B3_MASK) >> 3u8;
    let r8_value = cpu.get_r8_value(r8);

    let new_value = r8_value & !(1u8 << b3);

    cpu.set_r8_value(r8, new_value);

    cpu.pc = cpu.pc.wrapping_add(2);
    proof {
        assert(cpu@ =~~= after_res_b3_r8(old(cpu)@, instruction));
    }
}

pub fn set_b3_r8(cpu: &mut Cpu, instruction: u8)
    requires
        old(cpu).wf(),
    ensures
        final(cpu).wf(),
        final(cpu)@ == after_set_b3_r8(old(cpu)@, instruction),
{
    broadcast use crate::bits::lemma_u8_bit_field;

    let r8: R8 = utils::convert_source_index_to_r8(instruction);
    let b3 = (instruction & B3_MASK) >> 3u8;
    let mut r8_value = cpu.get_r8_value(r8);

    r8_value |= 1u8 << b3;
    cpu.set_r8_value(r8, r8_value);

    cpu.pc = cpu.pc.wrapping_add(2);
    proof {
        assert(cpu@ =~~= after_set_b3_r8(old(cpu)@, instruction));
    }
}

} // verus!
